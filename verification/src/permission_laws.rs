//! What holds of every permission that is asked for.

use vstd::prelude::*;

use crate::permissions::{
    self, HookPhase, PermissionChange, PermissionMode, PermissionPromptDecision, PermissionRequest,
};
use crate::text;
use crate::text_laws;

verus! {

/// A mode is asked for by its own name, and by no other: a text asks for a mode
/// exactly where it is the name of that mode, white space around it aside.
pub proof fn law_modes_are_asked_for_by_name(asked: Seq<char>, mode: PermissionMode)
    ensures
        permissions::mode_asked(mode.name()) == Some(mode),
        permissions::mode_asked(asked) == Some(mode) <==> text::trimmed(asked) == mode.name(),
{
    permissions::law_modes_are_known_by_name(mode);
    reveal_strlit("read-only");
    reveal_strlit("workspace-write");
    reveal_strlit("danger-full-access");
    assert("read-only"@.len() == 9);
    assert("workspace-write"@.len() == 15);
    assert("danger-full-access"@.len() == 18);
    text_laws::law_trimmed_texts_stay("read-only"@);
    text_laws::law_trimmed_texts_stay("workspace-write"@);
    text_laws::law_trimmed_texts_stay("danger-full-access"@);
}

/// Different modes have different names.
pub proof fn law_modes_have_names_of_their_own(first: PermissionMode, second: PermissionMode)
    ensures
        first.name() == second.name() <==> first == second,
{
    permissions::law_modes_are_known_by_name(first);
    permissions::law_modes_are_known_by_name(second);
}

/// A wish for a mode changes to that mode and from the current one, unless it is
/// the current one already; a name that is no mode's changes nothing and is told.
pub proof fn law_wishes_change_to_the_mode_named(
    current: PermissionMode,
    mode: PermissionMode,
    asked: Seq<char>,
    change: PermissionChange,
)
    ensures
        permissions::wish_comes_to(current, None, change) ==> change == PermissionChange::Report,
        permissions::wish_comes_to(current, Some(mode.name()), change) ==> (if mode == current {
            change == PermissionChange::Unchanged(mode)
        } else {
            change == (PermissionChange::Switch { from: current, to: mode })
        }),
        permissions::wish_comes_to(current, Some(asked), change) && permissions::mode_asked(asked)
            is None ==> (change matches PermissionChange::Unsupported(message)
            && text::contains_text(message@, "'"@ + asked + "'"@)),
        permissions::wish_comes_to(current, Some(asked), change) ==> (
        change matches PermissionChange::Switch { from, to } ==> from == current && to != current
            && text::trimmed(asked) == to.name()),
{
    law_modes_are_asked_for_by_name(asked, mode);
    if let PermissionChange::Switch { from, to } = change {
        law_modes_are_asked_for_by_name(asked, to);
    }
    reveal_strlit("unsupported permission mode '");
    reveal_strlit("unsupported permission mode ");
    reveal_strlit("'");
    assert("unsupported permission mode '"@ =~= "unsupported permission mode "@ + "'"@);
    reveal_strlit("'. Use read-only, workspace-write, or danger-full-access.");
    reveal_strlit("'");
    reveal_strlit(". Use read-only, workspace-write, or danger-full-access.");
    assert("'. Use read-only, workspace-write, or danger-full-access."@ =~= "'"@ + ". Use read-only, workspace-write, or danger-full-access."@);
    let part = "'"@ + asked + "'"@;
    let tail = ". Use read-only, workspace-write, or danger-full-access."@;
    assert(permissions::unsupported_mode(asked) =~= "unsupported permission mode "@ + part + tail);
    text::lemma_contains_part("unsupported permission mode "@, part, tail);
}

/// Only a yes approves: `y` and `yes`, in any case and with white space around
/// them. No answer at all does not.
pub proof fn law_only_a_yes_approves(answer: Seq<char>)
    ensures
        permissions::approves("y"@),
        permissions::approves("yes"@),
        permissions::approves("Y"@),
        permissions::approves(answer) ==> text::lowered(text::trimmed(answer)) == "y"@
            || text::lowered(text::trimmed(answer)) == "yes"@,
        text::is_blank(answer) ==> !permissions::approves(answer),
        permissions::approves("n"@) == false,
        permissions::approves("no"@) == false,
{
    reveal_strlit("y");
    reveal_strlit("yes");
    reveal_strlit("Y");
    reveal_strlit("n");
    reveal_strlit("no");
    assert("y"@.len() == 1);
    assert("yes"@.len() == 3);
    assert("Y"@.len() == 1);
    assert("n"@.len() == 1);
    assert("no"@.len() == 2);
    assert("Y"@[0] == 'Y');
    assert("n"@[0] == 'n');
    assert("y"@[0] == 'y');
    text_laws::law_trimmed_texts_stay("y"@);
    text_laws::law_trimmed_texts_stay("yes"@);
    text_laws::law_trimmed_texts_stay("Y"@);
    text_laws::law_trimmed_texts_stay("n"@);
    text_laws::law_trimmed_texts_stay("no"@);
    assert(text::lowered("y"@) =~= "y"@);
    assert(text::lowered("yes"@) =~= "yes"@);
    assert(text::lowered("Y"@) =~= "y"@);
    assert(text::lowered("n"@) =~= "n"@);
    assert(text::lowered("no"@) =~= "no"@);
    text::lemma_trimmed_empty_iff_blank(answer);
}

/// A tool is allowed exactly where an answer came and approves; otherwise it is
/// denied, and the tool, or why no answer came, is told.
pub proof fn law_tools_run_only_when_approved(
    tool_name: Seq<char>,
    answer: Result<Seq<char>, Seq<char>>,
    decision: PermissionPromptDecision,
)
    requires
        permissions::decides_for(tool_name, answer, decision),
    ensures
        decision == PermissionPromptDecision::Allow <==> (answer matches Ok(said)
            && permissions::approves(said)),
        answer matches Ok(said) ==> (decision matches PermissionPromptDecision::Deny { reason }
            ==> text::contains_text(reason@, "'"@ + tool_name + "' denied"@)),
        answer matches Err(error) ==> (decision matches PermissionPromptDecision::Deny { reason }
            && text::has_suffix(reason@, error)),
{
    reveal_strlit("tool '");
    reveal_strlit("tool ");
    reveal_strlit("'");
    assert("tool '"@ =~= "tool "@ + "'"@);
    reveal_strlit("' denied by user approval prompt");
    reveal_strlit("' denied");
    reveal_strlit(" by user approval prompt");
    assert("' denied by user approval prompt"@ =~= "' denied"@ + " by user approval prompt"@);
    let part = "'"@ + tool_name + "' denied"@;
    assert("tool '"@ + tool_name + "' denied by user approval prompt"@ =~= "tool "@ + part
        + " by user approval prompt"@);
    text::lemma_contains_part("tool "@, part, " by user approval prompt"@);
    if let Err(error) = answer {
        text::lemma_contains_part("permission approval failed: "@, error, Seq::empty());
    }
}

/// The question names the tool, the mode in use, the mode that is needed and the
/// input, each behind its name.
pub proof fn law_questions_tell_what_is_asked(request: PermissionRequest, current: PermissionMode)
    requires
        request.reason is None,
    ensures
        ({
            let question = permissions::approval_question(request, current);
            &&& text::contains_text(question, "  Tool             "@ + request.tool_name@ + "\n"@)
            &&& text::contains_text(question, "  Current mode     "@ + current.name() + "\n"@)
            &&& text::contains_text(question, "  Required mode    "@ + request.required_mode.name() + "\n"@)
            &&& text::contains_text(question, "  Input            "@ + request.input@ + "\n"@)
        }),
{
    lemma_questions_tell_what_is_asked(request.tool_name@, current.name(), request.required_mode.name(), request.input@);
    assert(permissions::approval_question(request, current) =~= "\nPermission approval required\n  Tool             "@ + request.tool_name@ + "\n  Current mode     "@ + current.name() + "\n  Required mode    "@ + request.required_mode.name() + "\n  Input            "@ + request.input@ + "\nApprove this tool call? [y/N]: "@);
}

proof fn lemma_questions_tell_what_is_asked(tool: Seq<char>, now: Seq<char>, needed: Seq<char>, input: Seq<char>)
    ensures
        ({
            let question = "\nPermission approval required\n  Tool             "@ + tool + "\n  Current mode     "@ + now + "\n  Required mode    "@ + needed + "\n  Input            "@ + input + "\nApprove this tool call? [y/N]: "@;
            &&& text::contains_text(question, "  Tool             "@ + tool + "\n"@)
            &&& text::contains_text(question, "  Current mode     "@ + now + "\n"@)
            &&& text::contains_text(question, "  Required mode    "@ + needed + "\n"@)
            &&& text::contains_text(question, "  Input            "@ + input + "\n"@)
        }),
{
    let question = "\nPermission approval required\n  Tool             "@ + tool + "\n  Current mode     "@ + now + "\n  Required mode    "@ + needed + "\n  Input            "@ + input + "\nApprove this tool call? [y/N]: "@;
    assert(text::contains_text(question, "  Tool             "@ + tool + "\n"@)) by {
        reveal_strlit("\nPermission approval required\n  Tool             ");
        reveal_strlit("\nPermission approval required\n");
        reveal_strlit("  Tool             ");
        reveal_strlit("\n  Current mode     ");
        reveal_strlit("\n");
        reveal_strlit("  Current mode     ");
        assert("\nPermission approval required\n  Tool             "@ =~= "\nPermission approval required\n"@ + "  Tool             "@);
        assert("\n  Current mode     "@ =~= "\n"@ + "  Current mode     "@);
        let before = "\nPermission approval required\n"@;
        let part = "  Tool             "@ + tool + "\n"@;
        let after = "  Current mode     "@ + now + "\n  Required mode    "@ + needed + "\n  Input            "@ + input + "\nApprove this tool call? [y/N]: "@;
        assert(question =~= before + part + after);
        text::lemma_contains_part(before, part, after);
    }
    assert(text::contains_text(question, "  Current mode     "@ + now + "\n"@)) by {
        reveal_strlit("\n  Current mode     ");
        reveal_strlit("\n");
        reveal_strlit("  Current mode     ");
        reveal_strlit("\n  Required mode    ");
        reveal_strlit("  Required mode    ");
        assert("\n  Current mode     "@ =~= "\n"@ + "  Current mode     "@);
        assert("\n  Required mode    "@ =~= "\n"@ + "  Required mode    "@);
        let before = "\nPermission approval required\n  Tool             "@ + tool + "\n"@;
        let part = "  Current mode     "@ + now + "\n"@;
        let after = "  Required mode    "@ + needed + "\n  Input            "@ + input + "\nApprove this tool call? [y/N]: "@;
        assert(question =~= before + part + after);
        text::lemma_contains_part(before, part, after);
    }
    assert(text::contains_text(question, "  Required mode    "@ + needed + "\n"@)) by {
        reveal_strlit("\n  Required mode    ");
        reveal_strlit("\n");
        reveal_strlit("  Required mode    ");
        reveal_strlit("\n  Input            ");
        reveal_strlit("  Input            ");
        assert("\n  Required mode    "@ =~= "\n"@ + "  Required mode    "@);
        assert("\n  Input            "@ =~= "\n"@ + "  Input            "@);
        let before = "\nPermission approval required\n  Tool             "@ + tool + "\n  Current mode     "@ + now + "\n"@;
        let part = "  Required mode    "@ + needed + "\n"@;
        let after = "  Input            "@ + input + "\nApprove this tool call? [y/N]: "@;
        assert(question =~= before + part + after);
        text::lemma_contains_part(before, part, after);
    }
    assert(text::contains_text(question, "  Input            "@ + input + "\n"@)) by {
        reveal_strlit("\n  Input            ");
        reveal_strlit("\n");
        reveal_strlit("  Input            ");
        reveal_strlit("\nApprove this tool call? [y/N]: ");
        reveal_strlit("Approve this tool call? [y/N]: ");
        assert("\n  Input            "@ =~= "\n"@ + "  Input            "@);
        assert("\nApprove this tool call? [y/N]: "@ =~= "\n"@ + "Approve this tool call? [y/N]: "@);
        let before = "\nPermission approval required\n  Tool             "@ + tool + "\n  Current mode     "@ + now + "\n  Required mode    "@ + needed + "\n"@;
        let part = "  Input            "@ + input + "\n"@;
        let after = "Approve this tool call? [y/N]: "@;
        assert(question =~= before + part + after);
        text::lemma_contains_part(before, part, after);
    }
}

/// Where there is a reason, the question tells it as well.
pub proof fn law_questions_tell_the_reason(request: PermissionRequest, current: PermissionMode, reason: Seq<char>)
    requires
        text::opt_text(request.reason) == Some(reason),
    ensures
        ({
            let question = permissions::approval_question(request, current);
            &&& text::contains_text(question, "  Tool             "@ + request.tool_name@ + "\n"@)
            &&& text::contains_text(question, "  Current mode     "@ + current.name() + "\n"@)
            &&& text::contains_text(question, "  Required mode    "@ + request.required_mode.name() + "\n"@)
            &&& text::contains_text(question, "  Reason           "@ + reason + "\n"@)
            &&& text::contains_text(question, "  Input            "@ + request.input@ + "\n"@)
        }),
{
    lemma_questions_tell_the_reason(request.tool_name@, current.name(), request.required_mode.name(), reason, request.input@);
    assert(permissions::approval_question(request, current) =~= "\nPermission approval required\n  Tool             "@ + request.tool_name@ + "\n  Current mode     "@ + current.name() + "\n  Required mode    "@ + request.required_mode.name() + "\n  Reason           "@ + reason + "\n  Input            "@ + request.input@ + "\nApprove this tool call? [y/N]: "@);
}

proof fn lemma_questions_tell_the_reason(tool: Seq<char>, now: Seq<char>, needed: Seq<char>, reason: Seq<char>, input: Seq<char>)
    ensures
        ({
            let question = "\nPermission approval required\n  Tool             "@ + tool + "\n  Current mode     "@ + now + "\n  Required mode    "@ + needed + "\n  Reason           "@ + reason + "\n  Input            "@ + input + "\nApprove this tool call? [y/N]: "@;
            &&& text::contains_text(question, "  Tool             "@ + tool + "\n"@)
            &&& text::contains_text(question, "  Current mode     "@ + now + "\n"@)
            &&& text::contains_text(question, "  Required mode    "@ + needed + "\n"@)
            &&& text::contains_text(question, "  Reason           "@ + reason + "\n"@)
            &&& text::contains_text(question, "  Input            "@ + input + "\n"@)
        }),
{
    let question = "\nPermission approval required\n  Tool             "@ + tool + "\n  Current mode     "@ + now + "\n  Required mode    "@ + needed + "\n  Reason           "@ + reason + "\n  Input            "@ + input + "\nApprove this tool call? [y/N]: "@;
    assert(text::contains_text(question, "  Tool             "@ + tool + "\n"@)) by {
        reveal_strlit("\nPermission approval required\n  Tool             ");
        reveal_strlit("\nPermission approval required\n");
        reveal_strlit("  Tool             ");
        reveal_strlit("\n  Current mode     ");
        reveal_strlit("\n");
        reveal_strlit("  Current mode     ");
        assert("\nPermission approval required\n  Tool             "@ =~= "\nPermission approval required\n"@ + "  Tool             "@);
        assert("\n  Current mode     "@ =~= "\n"@ + "  Current mode     "@);
        let before = "\nPermission approval required\n"@;
        let part = "  Tool             "@ + tool + "\n"@;
        let after = "  Current mode     "@ + now + "\n  Required mode    "@ + needed + "\n  Reason           "@ + reason + "\n  Input            "@ + input + "\nApprove this tool call? [y/N]: "@;
        assert(question =~= before + part + after);
        text::lemma_contains_part(before, part, after);
    }
    assert(text::contains_text(question, "  Current mode     "@ + now + "\n"@)) by {
        reveal_strlit("\n  Current mode     ");
        reveal_strlit("\n");
        reveal_strlit("  Current mode     ");
        reveal_strlit("\n  Required mode    ");
        reveal_strlit("  Required mode    ");
        assert("\n  Current mode     "@ =~= "\n"@ + "  Current mode     "@);
        assert("\n  Required mode    "@ =~= "\n"@ + "  Required mode    "@);
        let before = "\nPermission approval required\n  Tool             "@ + tool + "\n"@;
        let part = "  Current mode     "@ + now + "\n"@;
        let after = "  Required mode    "@ + needed + "\n  Reason           "@ + reason + "\n  Input            "@ + input + "\nApprove this tool call? [y/N]: "@;
        assert(question =~= before + part + after);
        text::lemma_contains_part(before, part, after);
    }
    assert(text::contains_text(question, "  Required mode    "@ + needed + "\n"@)) by {
        reveal_strlit("\n  Required mode    ");
        reveal_strlit("\n");
        reveal_strlit("  Required mode    ");
        reveal_strlit("\n  Reason           ");
        reveal_strlit("  Reason           ");
        assert("\n  Required mode    "@ =~= "\n"@ + "  Required mode    "@);
        assert("\n  Reason           "@ =~= "\n"@ + "  Reason           "@);
        let before = "\nPermission approval required\n  Tool             "@ + tool + "\n  Current mode     "@ + now + "\n"@;
        let part = "  Required mode    "@ + needed + "\n"@;
        let after = "  Reason           "@ + reason + "\n  Input            "@ + input + "\nApprove this tool call? [y/N]: "@;
        assert(question =~= before + part + after);
        text::lemma_contains_part(before, part, after);
    }
    assert(text::contains_text(question, "  Reason           "@ + reason + "\n"@)) by {
        reveal_strlit("\n  Reason           ");
        reveal_strlit("\n");
        reveal_strlit("  Reason           ");
        reveal_strlit("\n  Input            ");
        reveal_strlit("  Input            ");
        assert("\n  Reason           "@ =~= "\n"@ + "  Reason           "@);
        assert("\n  Input            "@ =~= "\n"@ + "  Input            "@);
        let before = "\nPermission approval required\n  Tool             "@ + tool + "\n  Current mode     "@ + now + "\n  Required mode    "@ + needed + "\n"@;
        let part = "  Reason           "@ + reason + "\n"@;
        let after = "  Input            "@ + input + "\nApprove this tool call? [y/N]: "@;
        assert(question =~= before + part + after);
        text::lemma_contains_part(before, part, after);
    }
    assert(text::contains_text(question, "  Input            "@ + input + "\n"@)) by {
        reveal_strlit("\n  Input            ");
        reveal_strlit("\n");
        reveal_strlit("  Input            ");
        reveal_strlit("\nApprove this tool call? [y/N]: ");
        reveal_strlit("Approve this tool call? [y/N]: ");
        assert("\n  Input            "@ =~= "\n"@ + "  Input            "@);
        assert("\nApprove this tool call? [y/N]: "@ =~= "\n"@ + "Approve this tool call? [y/N]: "@);
        let before = "\nPermission approval required\n  Tool             "@ + tool + "\n  Current mode     "@ + now + "\n  Required mode    "@ + needed + "\n  Reason           "@ + reason + "\n"@;
        let part = "  Input            "@ + input + "\n"@;
        let after = "Approve this tool call? [y/N]: "@;
        assert(question =~= before + part + after);
        text::lemma_contains_part(before, part, after);
    }
}

/// The line of a hook tells how far it is, its event, the tool and the command.
pub proof fn law_hook_lines_tell_of_the_hook(
    event: Seq<char>,
    tool: Seq<char>,
    command: Seq<char>,
)
    ensures
        permissions::hook_report(HookPhase::Started, event, tool, command) == "[hook "@ + event
            + "] "@ + tool + ": "@ + command,
        text::has_prefix(
            permissions::hook_report(HookPhase::Completed, event, tool, command),
            "[hook done "@ + event,
        ),
        text::has_prefix(
            permissions::hook_report(HookPhase::Cancelled, event, tool, command),
            "[hook cancelled "@ + event,
        ),
        text::has_suffix(
            permissions::hook_report(HookPhase::Completed, event, tool, command),
            "] "@ + tool + ": "@ + command,
        ),
        text::has_suffix(
            permissions::hook_report(HookPhase::Cancelled, event, tool, command),
            "] "@ + tool + ": "@ + command,
        ),
{
    let tail = "] "@ + tool + ": "@ + command;
    let done = permissions::hook_report(HookPhase::Completed, event, tool, command);
    let cancelled = permissions::hook_report(HookPhase::Cancelled, event, tool, command);
    assert(done =~= ("[hook done "@ + event) + tail);
    assert(cancelled =~= ("[hook cancelled "@ + event) + tail);
    text::lemma_contains_part("[hook done "@ + event, tail, Seq::empty());
    text::lemma_contains_part(Seq::empty(), "[hook done "@ + event, tail);
    text::lemma_contains_part("[hook cancelled "@ + event, tail, Seq::empty());
    text::lemma_contains_part(Seq::empty(), "[hook cancelled "@ + event, tail);
}

} // verus!
