//! What holds of the commands that change a running program, and of what they
//! tell.

use vstd::prelude::*;

use crate::json::{self, JsonView};
use crate::live::{
    self,
    LiveView,
    ModelStep,
    PermissionStep,
    RuntimeShutdown,
    SessionEnd,
    SessionFound,
    SessionPurpose,
    SessionStep,
    TurnEnd,
};
use crate::output::CliOutputFormat;
use crate::permissions::{self, PermissionMode};
use crate::reports;
use crate::sessions::SessionHandle;
use crate::text;

verus! {

// ---------------------------------------------------------------------------
// Model and permissions
// ---------------------------------------------------------------------------

/// The runtime is built anew exactly where another model is asked for, and for
/// that model; else the model in use is told.
pub proof fn law_models_change_to_the_one_asked_for(
    live: LiveView,
    requested: Option<Seq<char>>,
    message_count: nat,
    turns: nat,
    step: ModelStep,
)
    requires
        live::model_step(live, requested, message_count, turns, step),
    ensures
        step is Rebuild <==> requested is Some && requested->0 != live.model,
        step is Rebuild ==> Some(step->model@) == requested,
        step is Report ==> step->Report_0@ == reports::model_report(
            live.model,
            message_count,
            turns,
        ),
        step is Rebuild ==> live::with_model(live, step->model@) != live,
{
}

/// Another model, or another session, changes nothing else of the program.
pub proof fn law_changes_keep_the_rest(
    live: LiveView,
    model: Seq<char>,
    id: Seq<char>,
    path: Seq<char>,
)
    ensures
        ({
            let other = live::with_model(live, model);
            &&& other.model == model
            &&& other.permission_mode == live.permission_mode
            &&& other.session_id == live.session_id
            &&& other.session_path == live.session_path
        }),
        ({
            let other = live::with_session(live, id, path);
            &&& other.model == live.model
            &&& other.permission_mode == live.permission_mode
            &&& other.session_id == id
            &&& other.session_path == path
        }),
{
}

/// The permissions change exactly where another known mode is named, and to that
/// mode; a name that is not known changes nothing and is refused.
pub proof fn law_permissions_change_to_the_mode_named(
    current: PermissionMode,
    requested: Option<Seq<char>>,
    left: PermissionMode,
    step: Result<PermissionStep, String>,
)
    requires
        live::permission_step(current, requested, left, step),
    ensures
        step is Ok && step->Ok_0 is Rebuild <==> left != current,
        left != current ==> requested is Some && permissions::mode_named(
            text::trimmed(requested->0),
        ) == Some(left) && step->Ok_0->report@ == reports::permissions_switch_report(
            current.name(),
            left.name(),
        ),
        step is Err <==> requested is Some && permissions::mode_named(
            text::trimmed(requested->0),
        ) is None,
        step is Err ==> step->Err_0@ == permissions::unsupported_mode(requested->0),
        step is Ok && step->Ok_0 is Report ==> step->Ok_0->Report_0@
            == reports::permissions_report(current.name()),
        requested is Some && permissions::mode_named(text::trimmed(requested->0)) is Some ==> left
            == permissions::mode_named(text::trimmed(requested->0))->0,
{
}

// ---------------------------------------------------------------------------
// The session
// ---------------------------------------------------------------------------

/// A session is cleared only where that is confirmed, and compacted only where
/// that is enabled; what is missing is told.
pub proof fn law_missing_consent_is_told(given: bool)
    ensures
        live::missing_to_clear(given) is None <==> given,
        live::missing_to_compact(given) is None <==> given,
        !given ==> text::contains_text(live::missing_to_clear(given)->0, "/clear --confirm"@),
        !given ==> live::missing_to_compact(given) == Some("Compaction is disabled."@),
{
    reveal_strlit("/clear --confirm");
    reveal_strlit("clear: confirmation required; run ");
    reveal_strlit(" to start a fresh session.");
    reveal_strlit("clear: confirmation required; run /clear --confirm to start a fresh session.");
    let before = "clear: confirmation required; run "@;
    let after = " to start a fresh session."@;
    assert(live::unconfirmed_clear() =~= before + "/clear --confirm"@ + after);
    text::lemma_contains_part(before, "/clear --confirm"@, after);
}

proof fn lemma_clearing_is_told(report: Seq<char>, previous: Seq<char>, model: Seq<char>, mode: Seq<char>, id: Seq<char>, path: Seq<char>)
    requires
        report == "Session cleared\n  Mode             fresh session\n  Previous session "@ + previous + "\n  Resume previous  /resume "@ + previous + "\n  Preserved model  "@ + model + "\n  Permission mode  "@ + mode + "\n  New session      "@ + id + "\n  Session file     "@ + path,
    ensures
        text::contains_text(report, "  Previous session "@ + previous + "\n"@),
        text::contains_text(report, "  Resume previous  /resume "@ + previous + "\n"@),
        text::contains_text(report, "  Preserved model  "@ + model + "\n"@),
        text::contains_text(report, "  Permission mode  "@ + mode + "\n"@),
        text::contains_text(report, "  New session      "@ + id + "\n"@),
        text::has_suffix(report, "  Session file     "@ + path),
{
    assert(text::contains_text(report, "  Previous session "@ + previous + "\n"@)) by {
        reveal_strlit("Session cleared\n  Mode             fresh session\n  Previous session ");
        reveal_strlit("Session cleared\n  Mode             fresh session\n");
        reveal_strlit("  Previous session ");
        reveal_strlit("\n  Resume previous  /resume ");
        reveal_strlit("\n");
        reveal_strlit("  Resume previous  /resume ");
        assert("Session cleared\n  Mode             fresh session\n  Previous session "@ =~= "Session cleared\n  Mode             fresh session\n"@ + "  Previous session "@);
        assert("\n  Resume previous  /resume "@ =~= "\n"@ + "  Resume previous  /resume "@);
        let before = "Session cleared\n  Mode             fresh session\n"@;
        let part = "  Previous session "@ + previous + "\n"@;
        let after = "  Resume previous  /resume "@ + previous + "\n  Preserved model  "@ + model + "\n  Permission mode  "@ + mode + "\n  New session      "@ + id + "\n  Session file     "@ + path;
        assert(report =~= before + part + after);
        text::lemma_contains_part(before, part, after);
    }
    assert(text::contains_text(report, "  Resume previous  /resume "@ + previous + "\n"@)) by {
        reveal_strlit("\n  Resume previous  /resume ");
        reveal_strlit("\n");
        reveal_strlit("  Resume previous  /resume ");
        reveal_strlit("\n  Preserved model  ");
        reveal_strlit("  Preserved model  ");
        assert("\n  Resume previous  /resume "@ =~= "\n"@ + "  Resume previous  /resume "@);
        assert("\n  Preserved model  "@ =~= "\n"@ + "  Preserved model  "@);
        let before = "Session cleared\n  Mode             fresh session\n  Previous session "@ + previous + "\n"@;
        let part = "  Resume previous  /resume "@ + previous + "\n"@;
        let after = "  Preserved model  "@ + model + "\n  Permission mode  "@ + mode + "\n  New session      "@ + id + "\n  Session file     "@ + path;
        assert(report =~= before + part + after);
        text::lemma_contains_part(before, part, after);
    }
    assert(text::contains_text(report, "  Preserved model  "@ + model + "\n"@)) by {
        reveal_strlit("\n  Preserved model  ");
        reveal_strlit("\n");
        reveal_strlit("  Preserved model  ");
        reveal_strlit("\n  Permission mode  ");
        reveal_strlit("  Permission mode  ");
        assert("\n  Preserved model  "@ =~= "\n"@ + "  Preserved model  "@);
        assert("\n  Permission mode  "@ =~= "\n"@ + "  Permission mode  "@);
        let before = "Session cleared\n  Mode             fresh session\n  Previous session "@ + previous + "\n  Resume previous  /resume "@ + previous + "\n"@;
        let part = "  Preserved model  "@ + model + "\n"@;
        let after = "  Permission mode  "@ + mode + "\n  New session      "@ + id + "\n  Session file     "@ + path;
        assert(report =~= before + part + after);
        text::lemma_contains_part(before, part, after);
    }
    assert(text::contains_text(report, "  Permission mode  "@ + mode + "\n"@)) by {
        reveal_strlit("\n  Permission mode  ");
        reveal_strlit("\n");
        reveal_strlit("  Permission mode  ");
        reveal_strlit("\n  New session      ");
        reveal_strlit("  New session      ");
        assert("\n  Permission mode  "@ =~= "\n"@ + "  Permission mode  "@);
        assert("\n  New session      "@ =~= "\n"@ + "  New session      "@);
        let before = "Session cleared\n  Mode             fresh session\n  Previous session "@ + previous + "\n  Resume previous  /resume "@ + previous + "\n  Preserved model  "@ + model + "\n"@;
        let part = "  Permission mode  "@ + mode + "\n"@;
        let after = "  New session      "@ + id + "\n  Session file     "@ + path;
        assert(report =~= before + part + after);
        text::lemma_contains_part(before, part, after);
    }
    assert(text::contains_text(report, "  New session      "@ + id + "\n"@)) by {
        reveal_strlit("\n  New session      ");
        reveal_strlit("\n");
        reveal_strlit("  New session      ");
        reveal_strlit("\n  Session file     ");
        reveal_strlit("  Session file     ");
        assert("\n  New session      "@ =~= "\n"@ + "  New session      "@);
        assert("\n  Session file     "@ =~= "\n"@ + "  Session file     "@);
        let before = "Session cleared\n  Mode             fresh session\n  Previous session "@ + previous + "\n  Resume previous  /resume "@ + previous + "\n  Preserved model  "@ + model + "\n  Permission mode  "@ + mode + "\n"@;
        let part = "  New session      "@ + id + "\n"@;
        let after = "  Session file     "@ + path;
        assert(report =~= before + part + after);
        text::lemma_contains_part(before, part, after);
    }
    assert(text::has_suffix(report, "  Session file     "@ + path)) by {
        reveal_strlit("\n  Session file     ");
        reveal_strlit("\n");
        reveal_strlit("  Session file     ");
        assert("\n  Session file     "@ =~= "\n"@ + "  Session file     "@);
        let before = "Session cleared\n  Mode             fresh session\n  Previous session "@ + previous + "\n  Resume previous  /resume "@ + previous + "\n  Preserved model  "@ + model + "\n  Permission mode  "@ + mode + "\n  New session      "@ + id + "\n"@;
        let part = "  Session file     "@ + path;
        let after = Seq::<char>::empty();
        assert(report =~= before + part + after);
        text::lemma_contains_part(before, part, after);
        assert(before + part + after =~= before + part);
    }
}

/// A session that was cleared is told by its id, how to go on with it, the model and
/// the permissions that stay, and the id and the file of the new session.
pub proof fn law_cleared_sessions_tell_both_sessions(before: LiveView, after: LiveView)
    ensures
        text::contains_text(live::cleared_report(before, after), "  Previous session "@ + before.session_id + "\n"@),
        text::contains_text(live::cleared_report(before, after), "  Resume previous  /resume "@ + before.session_id + "\n"@),
        text::contains_text(live::cleared_report(before, after), "  Preserved model  "@ + after.model + "\n"@),
        text::contains_text(live::cleared_report(before, after), "  Permission mode  "@ + after.permission_mode.name() + "\n"@),
        text::contains_text(live::cleared_report(before, after), "  New session      "@ + after.session_id + "\n"@),
        text::has_suffix(live::cleared_report(before, after), "  Session file     "@ + after.session_path),
{
    lemma_clearing_is_told(live::cleared_report(before, after), before.session_id, after.model, after.permission_mode.name(), after.session_id, after.session_path);
}

/// `/resume` goes on with the session that was named, and tells how it is used
/// where none was.
pub proof fn law_resume_takes_what_is_named(session_path: Option<Seq<char>>)
    ensures
        live::resumed_reference(session_path) is Ok <==> session_path is Some,
        session_path is Some ==> live::resumed_reference(session_path) == Ok::<
            Seq<char>,
            Seq<char>,
        >(session_path->0),
        session_path is None ==> live::resumed_reference(session_path) == Err::<
            Seq<char>,
            Seq<char>,
        >(reports::resume_usage()),
{
}

/// `/session` lists the sessions where nothing else is asked for, and looks for
/// the session that is named to switch to it or to delete it, asking first unless
/// it is forced. A fork takes the name of its branch. Other words are told back.
pub proof fn law_session_words_ask_for_their_steps(
    target: Option<Seq<char>>,
    other: Seq<char>,
    step: SessionStep,
)
    ensures
        live::session_step(None, target, step) ==> step is List,
        live::session_step(Some("list"@), target, step) ==> step is List,
        live::session_step(Some("fork"@), target, step) ==> step is Fork && text::opt_text(
            step->branch,
        ) == target,
        live::session_step(Some("switch"@), target, step) ==> if target is Some {
            step is Resolve && step->purpose == SessionPurpose::Switch && step->target@
                == target->0
        } else {
            step is Say && step->Say_0@ == "Usage: /session switch <session-id>"@
        },
        live::session_step(Some("delete"@), target, step) ==> if target is Some {
            step is Resolve && step->purpose == SessionPurpose::Delete && step->target@
                == target->0
        } else {
            step is Say && step->Say_0@ == "Usage: /session delete <session-id> [--force]"@
        },
        live::session_step(Some("delete-force"@), target, step) ==> if target is Some {
            step is Resolve && step->purpose == SessionPurpose::DeleteForce && step->target@
                == target->0
        } else {
            step is Say && step->Say_0@ == "Usage: /session delete <session-id> [--force]"@
        },
        live::session_step(Some(other), target, step) && !(other == "list"@ || other == "switch"@
            || other == "fork"@ || other == "delete"@ || other == "delete-force"@) ==> step is Say
            && text::contains_text(step->Say_0@, "'"@ + other + "'"@),
{
    reveal_strlit("list");
    reveal_strlit("switch");
    reveal_strlit("fork");
    reveal_strlit("delete");
    reveal_strlit("delete-force");
    assert("list"@.len() == 4);
    assert("switch"@.len() == 6);
    assert("fork"@.len() == 4);
    assert("delete"@.len() == 6);
    assert("delete-force"@.len() == 12);
    assert("delete"@[0] == 'd');
    assert("fork"@[0] == 'f');
    assert("list"@[0] == 'l');
    assert("switch"@[0] == 's');
    lemma_unknown_action_is_told(other);
}

proof fn lemma_unknown_action_is_told(other: Seq<char>)
    ensures
        text::contains_text(live::unknown_session_action(other), "'"@ + other + "'"@),
{
    let tail = "'. Use /session list, /session switch <session-id>, /session fork [branch-name], or /session delete <session-id> [--force]."@;
    let rest = ". Use /session list, /session switch <session-id>, /session fork [branch-name], or /session delete <session-id> [--force]."@;
    reveal_strlit("Unknown /session action '");
    reveal_strlit("Unknown /session action ");
    reveal_strlit("'");
    reveal_strlit("'. Use /session list, /session switch <session-id>, /session fork [branch-name], or /session delete <session-id> [--force].");
    reveal_strlit(". Use /session list, /session switch <session-id>, /session fork [branch-name], or /session delete <session-id> [--force].");
    assert("Unknown /session action '"@ =~= "Unknown /session action "@ + "'"@);
    assert(tail =~= "'"@ + rest);
    let part = "'"@ + other + "'"@;
    assert(live::unknown_session_action(other) =~= "Unknown /session action "@ + part + rest);
    text::lemma_contains_part("Unknown /session action "@, part, rest);
}

/// A session that was found is loaded where it is switched to. One that is to be
/// deleted is asked about first, unless that is forced; the session in use is
/// neither, and the refusal tells its id.
pub proof fn law_found_sessions_are_treated_as_asked(
    handle: SessionHandle,
    active: Seq<char>,
    step: SessionFound,
)
    ensures
        live::found_step(SessionPurpose::Switch, handle, active, step) ==> step is Load
            && step->Load_0 == handle,
        live::found_step(SessionPurpose::Delete, handle, active, step) && handle.id@ != active
            ==> step is Confirm && step->Confirm_0 == handle,
        live::found_step(SessionPurpose::DeleteForce, handle, active, step) && handle.id@ != active
            ==> step is Delete && step->Delete_0 == handle,
        (live::found_step(SessionPurpose::Delete, handle, active, step) || live::found_step(
            SessionPurpose::DeleteForce,
            handle,
            active,
            step,
        )) && handle.id@ == active ==> step is Say && text::contains_text(
            step->Say_0@,
            "refusing to delete the active session '"@ + active + "'"@,
        ),
{
    lemma_refusal_is_told(active);
}

proof fn lemma_refusal_is_told(id: Seq<char>)
    ensures
        text::contains_text(
            live::refused_deletion(id),
            "refusing to delete the active session '"@ + id + "'"@,
        ),
{
    reveal_strlit("delete: refusing to delete the active session '");
    reveal_strlit("refusing to delete the active session '");
    reveal_strlit("delete: ");
    reveal_strlit("'");
    reveal_strlit("'.\nSwitch to another session first with /session switch <session-id>.");
    reveal_strlit(".\nSwitch to another session first with /session switch <session-id>.");
    assert("delete: refusing to delete the active session '"@ =~= "delete: "@
        + "refusing to delete the active session '"@);
    let rest = ".\nSwitch to another session first with /session switch <session-id>."@;
    assert("'.\nSwitch to another session first with /session switch <session-id>."@ =~= "'"@
        + rest);
    let part = "refusing to delete the active session '"@ + id + "'"@;
    assert(live::refused_deletion(id) =~= "delete: "@ + part + rest);
    text::lemma_contains_part("delete: "@, part, rest);
}

/// A session that was asked about is deleted where that is confirmed, and only
/// there.
pub proof fn law_deletions_need_a_yes(confirmed: bool, handle: SessionHandle, step: SessionFound)
    requires
        live::follows_question(confirmed, handle, step),
    ensures
        step is Delete <==> confirmed,
        step is Delete ==> step->Delete_0 == handle,
        !confirmed ==> step is Say && step->Say_0@ == "delete: cancelled."@,
{
}

proof fn lemma_deletion_is_told(report: Seq<char>, id: Seq<char>, path: Seq<char>)
    requires
        report == "Session deleted\n  Deleted session  "@ + id + "\n  File             "@ + path,
    ensures
        text::contains_text(report, "  Deleted session  "@ + id + "\n"@),
        text::has_suffix(report, "  File             "@ + path),
{
    assert(text::contains_text(report, "  Deleted session  "@ + id + "\n"@)) by {
        reveal_strlit("Session deleted\n  Deleted session  ");
        reveal_strlit("Session deleted\n");
        reveal_strlit("  Deleted session  ");
        reveal_strlit("\n  File             ");
        reveal_strlit("\n");
        reveal_strlit("  File             ");
        assert("Session deleted\n  Deleted session  "@ =~= "Session deleted\n"@ + "  Deleted session  "@);
        assert("\n  File             "@ =~= "\n"@ + "  File             "@);
        let before = "Session deleted\n"@;
        let part = "  Deleted session  "@ + id + "\n"@;
        let after = "  File             "@ + path;
        assert(report =~= before + part + after);
        text::lemma_contains_part(before, part, after);
    }
    assert(text::has_suffix(report, "  File             "@ + path)) by {
        reveal_strlit("\n  File             ");
        reveal_strlit("\n");
        reveal_strlit("  File             ");
        assert("\n  File             "@ =~= "\n"@ + "  File             "@);
        let before = "Session deleted\n  Deleted session  "@ + id + "\n"@;
        let part = "  File             "@ + path;
        let after = Seq::<char>::empty();
        assert(report =~= before + part + after);
        text::lemma_contains_part(before, part, after);
        assert(before + part + after =~= before + part);
    }
}

/// A session that was deleted is told by its id and its file.
pub proof fn law_deleted_sessions_are_told(id: Seq<char>, path: Seq<char>)
    ensures
        text::contains_text(live::deleted_report(id, path), "  Deleted session  "@ + id + "\n"@),
        text::has_suffix(live::deleted_report(id, path), "  File             "@ + path),
{
    lemma_deletion_is_told(live::deleted_report(id, path), id, path);
}

proof fn lemma_switch_is_told(report: Seq<char>, id: Seq<char>, path: Seq<char>, count: Seq<char>)
    requires
        report == "Session switched\n  Active session   "@ + id + "\n  File             "@ + path + "\n  Messages         "@ + count,
    ensures
        text::contains_text(report, "  Active session   "@ + id + "\n"@),
        text::contains_text(report, "  File             "@ + path + "\n"@),
        text::has_suffix(report, "  Messages         "@ + count),
{
    assert(text::contains_text(report, "  Active session   "@ + id + "\n"@)) by {
        reveal_strlit("Session switched\n  Active session   ");
        reveal_strlit("Session switched\n");
        reveal_strlit("  Active session   ");
        reveal_strlit("\n  File             ");
        reveal_strlit("\n");
        reveal_strlit("  File             ");
        assert("Session switched\n  Active session   "@ =~= "Session switched\n"@ + "  Active session   "@);
        assert("\n  File             "@ =~= "\n"@ + "  File             "@);
        let before = "Session switched\n"@;
        let part = "  Active session   "@ + id + "\n"@;
        let after = "  File             "@ + path + "\n  Messages         "@ + count;
        assert(report =~= before + part + after);
        text::lemma_contains_part(before, part, after);
    }
    assert(text::contains_text(report, "  File             "@ + path + "\n"@)) by {
        reveal_strlit("\n  File             ");
        reveal_strlit("\n");
        reveal_strlit("  File             ");
        reveal_strlit("\n  Messages         ");
        reveal_strlit("  Messages         ");
        assert("\n  File             "@ =~= "\n"@ + "  File             "@);
        assert("\n  Messages         "@ =~= "\n"@ + "  Messages         "@);
        let before = "Session switched\n  Active session   "@ + id + "\n"@;
        let part = "  File             "@ + path + "\n"@;
        let after = "  Messages         "@ + count;
        assert(report =~= before + part + after);
        text::lemma_contains_part(before, part, after);
    }
    assert(text::has_suffix(report, "  Messages         "@ + count)) by {
        reveal_strlit("\n  Messages         ");
        reveal_strlit("\n");
        reveal_strlit("  Messages         ");
        assert("\n  Messages         "@ =~= "\n"@ + "  Messages         "@);
        let before = "Session switched\n  Active session   "@ + id + "\n  File             "@ + path + "\n"@;
        let part = "  Messages         "@ + count;
        let after = Seq::<char>::empty();
        assert(report =~= before + part + after);
        text::lemma_contains_part(before, part, after);
        assert(before + part + after =~= before + part);
    }
}

/// A session that was switched to is told by its id, its file and its messages.
pub proof fn law_switched_sessions_are_told(id: Seq<char>, path: Seq<char>, messages: nat)
    ensures
        text::contains_text(live::switched_report(id, path, messages), "  Active session   "@ + id + "\n"@),
        text::contains_text(live::switched_report(id, path, messages), "  File             "@ + path + "\n"@),
        text::has_suffix(live::switched_report(id, path, messages), "  Messages         "@ + text::decimal(messages)),
{
    lemma_switch_is_told(live::switched_report(id, path, messages), id, path, text::decimal(messages));
}

proof fn lemma_fork_is_told(report: Seq<char>, parent: Seq<char>, id: Seq<char>, name: Seq<char>, path: Seq<char>, count: Seq<char>)
    requires
        report == "Session forked\n  Parent session   "@ + parent + "\n  Active session   "@ + id + "\n  Branch           "@ + name + "\n  File             "@ + path + "\n  Messages         "@ + count,
    ensures
        text::contains_text(report, "  Parent session   "@ + parent + "\n"@),
        text::contains_text(report, "  Active session   "@ + id + "\n"@),
        text::contains_text(report, "  Branch           "@ + name + "\n"@),
        text::contains_text(report, "  File             "@ + path + "\n"@),
        text::has_suffix(report, "  Messages         "@ + count),
{
    assert(text::contains_text(report, "  Parent session   "@ + parent + "\n"@)) by {
        reveal_strlit("Session forked\n  Parent session   ");
        reveal_strlit("Session forked\n");
        reveal_strlit("  Parent session   ");
        reveal_strlit("\n  Active session   ");
        reveal_strlit("\n");
        reveal_strlit("  Active session   ");
        assert("Session forked\n  Parent session   "@ =~= "Session forked\n"@ + "  Parent session   "@);
        assert("\n  Active session   "@ =~= "\n"@ + "  Active session   "@);
        let before = "Session forked\n"@;
        let part = "  Parent session   "@ + parent + "\n"@;
        let after = "  Active session   "@ + id + "\n  Branch           "@ + name + "\n  File             "@ + path + "\n  Messages         "@ + count;
        assert(report =~= before + part + after);
        text::lemma_contains_part(before, part, after);
    }
    assert(text::contains_text(report, "  Active session   "@ + id + "\n"@)) by {
        reveal_strlit("\n  Active session   ");
        reveal_strlit("\n");
        reveal_strlit("  Active session   ");
        reveal_strlit("\n  Branch           ");
        reveal_strlit("  Branch           ");
        assert("\n  Active session   "@ =~= "\n"@ + "  Active session   "@);
        assert("\n  Branch           "@ =~= "\n"@ + "  Branch           "@);
        let before = "Session forked\n  Parent session   "@ + parent + "\n"@;
        let part = "  Active session   "@ + id + "\n"@;
        let after = "  Branch           "@ + name + "\n  File             "@ + path + "\n  Messages         "@ + count;
        assert(report =~= before + part + after);
        text::lemma_contains_part(before, part, after);
    }
    assert(text::contains_text(report, "  Branch           "@ + name + "\n"@)) by {
        reveal_strlit("\n  Branch           ");
        reveal_strlit("\n");
        reveal_strlit("  Branch           ");
        reveal_strlit("\n  File             ");
        reveal_strlit("  File             ");
        assert("\n  Branch           "@ =~= "\n"@ + "  Branch           "@);
        assert("\n  File             "@ =~= "\n"@ + "  File             "@);
        let before = "Session forked\n  Parent session   "@ + parent + "\n  Active session   "@ + id + "\n"@;
        let part = "  Branch           "@ + name + "\n"@;
        let after = "  File             "@ + path + "\n  Messages         "@ + count;
        assert(report =~= before + part + after);
        text::lemma_contains_part(before, part, after);
    }
    assert(text::contains_text(report, "  File             "@ + path + "\n"@)) by {
        reveal_strlit("\n  File             ");
        reveal_strlit("\n");
        reveal_strlit("  File             ");
        reveal_strlit("\n  Messages         ");
        reveal_strlit("  Messages         ");
        assert("\n  File             "@ =~= "\n"@ + "  File             "@);
        assert("\n  Messages         "@ =~= "\n"@ + "  Messages         "@);
        let before = "Session forked\n  Parent session   "@ + parent + "\n  Active session   "@ + id + "\n  Branch           "@ + name + "\n"@;
        let part = "  File             "@ + path + "\n"@;
        let after = "  Messages         "@ + count;
        assert(report =~= before + part + after);
        text::lemma_contains_part(before, part, after);
    }
    assert(text::has_suffix(report, "  Messages         "@ + count)) by {
        reveal_strlit("\n  Messages         ");
        reveal_strlit("\n");
        reveal_strlit("  Messages         ");
        assert("\n  Messages         "@ =~= "\n"@ + "  Messages         "@);
        let before = "Session forked\n  Parent session   "@ + parent + "\n  Active session   "@ + id + "\n  Branch           "@ + name + "\n  File             "@ + path + "\n"@;
        let part = "  Messages         "@ + count;
        let after = Seq::<char>::empty();
        assert(report =~= before + part + after);
        text::lemma_contains_part(before, part, after);
        assert(before + part + after =~= before + part);
    }
}

/// A fork is told by the session that it was made from, its own id, the name of its
/// branch, its file and its messages.
pub proof fn law_forked_sessions_are_told(
    parent: Seq<char>,
    id: Seq<char>,
    branch: Option<Seq<char>>,
    path: Seq<char>,
    messages: nat,
)
    ensures
        text::contains_text(live::forked_report(parent, id, branch, path, messages), "  Parent session   "@ + parent + "\n"@),
        text::contains_text(live::forked_report(parent, id, branch, path, messages), "  Active session   "@ + id + "\n"@),
        text::contains_text(live::forked_report(parent, id, branch, path, messages), "  Branch           "@ + (if branch is Some { branch->0 } else { "(unnamed)"@ }) + "\n"@),
        text::contains_text(live::forked_report(parent, id, branch, path, messages), "  File             "@ + path + "\n"@),
        text::has_suffix(live::forked_report(parent, id, branch, path, messages), "  Messages         "@ + text::decimal(messages)),
{
    lemma_fork_is_told(live::forked_report(parent, id, branch, path, messages), parent, id, (if branch is Some { branch->0 } else { "(unnamed)"@ }), path, text::decimal(messages));
}

/// How `/session` ended is told as it came, and leaves in use the session that was
/// switched to or forked; what is only told, and a deletion, leave everything.
pub proof fn law_ends_leave_their_session(live: LiveView, end: SessionEnd)
    ensures
        ({
            let left = live::after_end(live, end);
            &&& end is Told ==> live::end_report(live, end) == end->Told_0@
            &&& end is Switched ==> left.session_id == end->id@ && left.session_path == end->path@
            &&& end is Forked ==> left.session_id == end->handle.id@ && left.session_path
                == end->handle.path@
            &&& end is Told || end is Deleted ==> left == live
            &&& left.model == live.model && left.permission_mode == live.permission_mode
            &&& end is Switched ==> live::end_report(live, end) == live::switched_report(
                left.session_id,
                left.session_path,
                end->Switched_message_count as nat,
            )
            &&& end is Forked ==> live::end_report(live, end) == live::forked_report(
                live.session_id,
                left.session_id,
                text::opt_text(end->branch),
                left.session_path,
                end->Forked_message_count as nat,
            )
            &&& end is Deleted ==> live::end_report(live, end) == live::deleted_report(
                end->Deleted_0.id@,
                end->Deleted_0.path@,
            )
        }),
        live::end_changes(end) <==> end is Switched || end is Forked,
{
}

// ---------------------------------------------------------------------------
// Turns
// ---------------------------------------------------------------------------

/// A compaction that removed nothing was skipped; every other one is told by what
/// it removed and kept.
pub proof fn law_compactions_tell_what_they_removed(removed: nat, kept: nat)
    ensures
        removed == 0 ==> live::compaction_told(removed, kept) == reports::compact_report(
            removed,
            kept,
            true,
        ),
        removed > 0 ==> live::compaction_told(removed, kept) == reports::compact_report(
            removed,
            kept,
            false,
        ),
{
}

/// A turn that is told as a document is so whether it is compact or not; a
/// compact one ends with its last text alone, and any other is told as it goes.
pub proof fn law_turns_are_run_as_they_are_told(compact: bool)
    ensures
        live::style_of(CliOutputFormat::Json, compact) is Document,
        live::style_of(CliOutputFormat::Text, compact) is FinalText <==> compact,
        live::style_of(CliOutputFormat::Text, compact) is Live <==> !compact,
{
}

/// A turn that succeeded is kept, one that failed is not; messages that were
/// compacted away are told of by their number.
pub proof fn law_turns_are_kept_where_they_succeed(
    result: Result<Option<usize>, ()>,
    end: TurnEnd,
)
    requires
        live::is_left_to_do(result, end),
    ensures
        end.keep <==> result is Ok,
        end.notice is Some <==> result is Ok && result->Ok_0 is Some,
        end.notice is Some ==> end.notice->0@ == reports::auto_compaction_notice(
            result->Ok_0->0 as nat,
        ),
        result is Ok ==> text::has_suffix(end.label@, "Done"@),
        result is Err ==> text::has_suffix(end.label@, "Request failed"@),
{
    assert(text::has_suffix("✨ Done"@, "Done"@)) by {
        reveal_strlit("✨ Done");
        reveal_strlit("Done");
        reveal_strlit("✨ ");
        assert("✨ "@ + "Done"@ + Seq::<char>::empty() =~= "✨ Done"@);
        text::lemma_contains_part("✨ "@, "Done"@, Seq::empty());
    }
    assert(text::has_suffix("❌ Request failed"@, "Request failed"@)) by {
        reveal_strlit("❌ Request failed");
        reveal_strlit("Request failed");
        reveal_strlit("❌ ");
        assert("❌ "@ + "Request failed"@ + Seq::<char>::empty() =~= "❌ Request failed"@);
        text::lemma_contains_part("❌ "@, "Request failed"@, Seq::empty());
    }
}

// ---------------------------------------------------------------------------
// Plugins
// ---------------------------------------------------------------------------

/// The document of what `/plugins` did holds the action, its target, the message, and
/// whether the runtime is loaded anew, each by its name.
pub proof fn law_plugin_documents_hold_what_was_done(
    action: Option<Seq<char>>,
    target: Option<Seq<char>>,
    message: Seq<char>,
    reload: bool,
)
    ensures
        live::plugin_json(action, target, message, reload).get("kind"@) == Some(JsonView::Text("plugin"@)),
        live::plugin_json(action, target, message, reload).get("action"@) == Some(JsonView::Text(if action is Some { action->0 } else { "list"@ })),
        live::plugin_json(action, target, message, reload).get("target"@) == Some((if target is Some { JsonView::Text(target->0) } else { JsonView::Null })),
        live::plugin_json(action, target, message, reload).get("message"@) == Some(JsonView::Text(message)),
        live::plugin_json(action, target, message, reload).get("reload_runtime"@) == Some(JsonView::Bool(reload)),
{
    reveal_strlit("kind");
    reveal_strlit("action");
    reveal_strlit("target");
    reveal_strlit("message");
    reveal_strlit("reload_runtime");
    assert("kind"@.len() == 4);
    assert("action"@.len() == 6);
    assert("target"@.len() == 6);
    assert("message"@.len() == 7);
    assert("reload_runtime"@.len() == 14);
    assert("action"@[0] == 'a');
    assert("target"@[0] == 't');
    let members = live::plugin_json(action, target, message, reload)->Object_0;
    json::lemma_member_at(members, 0);
    json::lemma_member_at(members, 1);
    json::lemma_member_at(members, 2);
    json::lemma_member_at(members, 3);
    json::lemma_member_at(members, 4);
}

/// An absolute path stays; one that starts with a dot lies below the working
/// directory, any other below the directory of the settings.
pub proof fn law_plugin_paths_lie_where_they_should(
    cwd: Seq<char>,
    config_home: Seq<char>,
    value: Seq<char>,
)
    ensures
        live::plugin_path(true, cwd, config_home, value) == value,
        value.len() > 0 && value[0] == '.' ==> live::plugin_path(false, cwd, config_home, value)
            == text::joined_path(cwd, value),
        value.len() == 0 || value[0] != '.' ==> live::plugin_path(false, cwd, config_home, value)
            == text::joined_path(config_home, value),
{
    reveal_strlit(".");
    assert("."@.len() == 1);
    assert("."@[0] == '.');
    if value.len() > 0 {
        assert(value.take(1)[0] == value[0]);
        assert(value.subrange(0, 1)[0] == value[0]);
        if value[0] == '.' {
            assert(value.take(1) =~= "."@);
            assert(value.subrange(0, 1) =~= "."@);
        }
    }
}

/// What was shut down is active no more, what could not be stays as it was, and
/// shutting down the one leaves the other.
pub proof fn law_what_fails_to_stop_stays_active(state: RuntimeShutdown, failed: bool)
    ensures
        !failed ==> !state.after_plugins(failed).plugins_active,
        !failed ==> !state.after_mcp(failed).mcp_active,
        failed ==> state.after_plugins(failed) == state && state.after_mcp(failed) == state,
        state.after_plugins(failed).mcp_active == state.mcp_active,
        state.after_mcp(failed).plugins_active == state.plugins_active,
{
}

} // verus!
