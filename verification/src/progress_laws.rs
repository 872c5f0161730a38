//! What holds of the lines that tell of the progress of a prompt.

use vstd::prelude::*;

use crate::json::JsonView;
use crate::progress::{self, InternalPromptProgressEvent, ProgressView};
use crate::text;
use crate::tool_display::{self, DisplayTool};

verus! {

/// Where a prompt stands begins with its step, goes on with its phase, and ends
/// with its detail where there is one.
pub proof fn law_standing_tells_step_phase_and_detail(state: ProgressView)
    ensures
        state.step == 0 ==> text::has_prefix(
            progress::status_text(state),
            "current step pending · phase "@ + state.phase,
        ),
        state.step > 0 ==> text::has_prefix(
            progress::status_text(state),
            "current step "@ + text::decimal(state.step as nat) + " · phase "@ + state.phase,
        ),
        state.detail is Some && state.detail->0.len() > 0 ==> text::has_suffix(
            progress::status_text(state),
            " · phase "@ + state.phase + " · "@ + state.detail->0,
        ),
        state.detail is None || state.detail->0.len() == 0 ==> text::has_suffix(
            progress::status_text(state),
            " · phase "@ + state.phase,
        ),
{
    let step = if state.step == 0 {
        "current step pending"@
    } else {
        "current step "@ + text::decimal(state.step as nat)
    };
    let phase = " · phase "@ + state.phase;
    let told = progress::status_text(state);
    let detail = if state.detail is Some && state.detail->0.len() > 0 {
        " · "@ + state.detail->0
    } else {
        Seq::empty()
    };
    assert(told =~= step + phase + detail);
    assert(text::has_prefix(told, step + phase)) by {
        text::lemma_contains_part(Seq::empty(), step + phase, detail);
        assert(Seq::<char>::empty() + (step + phase) + detail =~= told);
    }
    assert(text::has_suffix(told, phase + detail)) by {
        text::lemma_contains_part(step, phase + detail, Seq::empty());
        assert(step + (phase + detail) + Seq::<char>::empty() =~= told);
    }
    reveal_strlit("current step pending · phase ");
    reveal_strlit("current step pending");
    reveal_strlit(" · phase ");
    assert("current step pending · phase "@ =~= "current step pending"@ + " · phase "@);
    if state.step == 0 {
        assert("current step pending · phase "@ + state.phase =~= step + phase);
    } else {
        assert("current step "@ + text::decimal(state.step as nat) + " · phase "@ + state.phase
            =~= step + phase);
    }
    if detail.len() > 0 {
        assert(" · phase "@ + state.phase + " · "@ + state.detail->0 =~= phase + detail);
    } else {
        assert(phase + detail =~= phase);
    }
}

proof fn lemma_start_is_told(report: Seq<char>, label: Seq<char>, standing: Seq<char>)
    requires
        report == "🧭 "@ + label + " status · planning started · "@ + standing,
    ensures
        text::contains_text(report, "🧭 "@ + label + " "@),
        text::has_suffix(report, " status · planning started · "@ + standing),
{
    assert(text::contains_text(report, "🧭 "@ + label + " "@)) by {
        reveal_strlit("🧭 ");
        reveal_strlit(" status · planning started · ");
        reveal_strlit(" ");
        reveal_strlit("status · planning started · ");
        assert(" status · planning started · "@ =~= " "@ + "status · planning started · "@);
        let before = Seq::<char>::empty();
        let part = "🧭 "@ + label + " "@;
        let after = "status · planning started · "@ + standing;
        assert(report =~= before + part + after);
        text::lemma_contains_part(before, part, after);
    }
    assert(text::has_suffix(report, " status · planning started · "@ + standing)) by {
        reveal_strlit(" status · planning started · ");
        let before = "🧭 "@ + label;
        let part = " status · planning started · "@ + standing;
        let after = Seq::<char>::empty();
        assert(report =~= before + part + after);
        text::lemma_contains_part(before, part, after);
        assert(before + part + after =~= before + part);
    }
}

/// A start is told by the command, and where the prompt stands.
pub proof fn law_starts_tell_the_standing(state: ProgressView, elapsed: nat, error: Option<Seq<char>>)
    ensures
        text::contains_text(progress::progress_line(InternalPromptProgressEvent::Started, state, elapsed, error), "🧭 "@ + state.command_label + " "@),
        text::has_suffix(progress::progress_line(InternalPromptProgressEvent::Started, state, elapsed, error), " status · planning started · "@ + progress::status_text(state)),
{
    lemma_start_is_told(progress::progress_line(InternalPromptProgressEvent::Started, state, elapsed, error), state.command_label, progress::status_text(state));
}

proof fn lemma_update_is_told(report: Seq<char>, label: Seq<char>, standing: Seq<char>)
    requires
        report == "… "@ + label + " status · "@ + standing,
    ensures
        text::contains_text(report, "… "@ + label + " "@),
        text::has_suffix(report, " status · "@ + standing),
{
    assert(text::contains_text(report, "… "@ + label + " "@)) by {
        reveal_strlit("… ");
        reveal_strlit(" status · ");
        reveal_strlit(" ");
        reveal_strlit("status · ");
        assert(" status · "@ =~= " "@ + "status · "@);
        let before = Seq::<char>::empty();
        let part = "… "@ + label + " "@;
        let after = "status · "@ + standing;
        assert(report =~= before + part + after);
        text::lemma_contains_part(before, part, after);
    }
    assert(text::has_suffix(report, " status · "@ + standing)) by {
        reveal_strlit(" status · ");
        let before = "… "@ + label;
        let part = " status · "@ + standing;
        let after = Seq::<char>::empty();
        assert(report =~= before + part + after);
        text::lemma_contains_part(before, part, after);
        assert(before + part + after =~= before + part);
    }
}

/// An update is told by the command, and where the prompt stands.
pub proof fn law_updates_tell_the_standing(state: ProgressView, elapsed: nat, error: Option<Seq<char>>)
    ensures
        text::contains_text(progress::progress_line(InternalPromptProgressEvent::Update, state, elapsed, error), "… "@ + state.command_label + " "@),
        text::has_suffix(progress::progress_line(InternalPromptProgressEvent::Update, state, elapsed, error), " status · "@ + progress::status_text(state)),
{
    lemma_update_is_told(progress::progress_line(InternalPromptProgressEvent::Update, state, elapsed, error), state.command_label, progress::status_text(state));
}

proof fn lemma_heartbeat_is_told(report: Seq<char>, label: Seq<char>, seconds: Seq<char>, standing: Seq<char>)
    requires
        report == "… "@ + label + " heartbeat · "@ + seconds + "s elapsed · "@ + standing,
    ensures
        text::contains_text(report, "… "@ + label + " "@),
        text::contains_text(report, " heartbeat · "@ + seconds + "s"@),
        text::has_suffix(report, "s elapsed · "@ + standing),
{
    assert(text::contains_text(report, "… "@ + label + " "@)) by {
        reveal_strlit("… ");
        reveal_strlit(" heartbeat · ");
        reveal_strlit(" ");
        reveal_strlit("heartbeat · ");
        assert(" heartbeat · "@ =~= " "@ + "heartbeat · "@);
        let before = Seq::<char>::empty();
        let part = "… "@ + label + " "@;
        let after = "heartbeat · "@ + seconds + "s elapsed · "@ + standing;
        assert(report =~= before + part + after);
        text::lemma_contains_part(before, part, after);
    }
    assert(text::contains_text(report, " heartbeat · "@ + seconds + "s"@)) by {
        reveal_strlit(" heartbeat · ");
        reveal_strlit("s elapsed · ");
        reveal_strlit("s");
        reveal_strlit(" elapsed · ");
        assert("s elapsed · "@ =~= "s"@ + " elapsed · "@);
        let before = "… "@ + label;
        let part = " heartbeat · "@ + seconds + "s"@;
        let after = " elapsed · "@ + standing;
        assert(report =~= before + part + after);
        text::lemma_contains_part(before, part, after);
    }
    assert(text::has_suffix(report, "s elapsed · "@ + standing)) by {
        reveal_strlit("s elapsed · ");
        let before = "… "@ + label + " heartbeat · "@ + seconds;
        let part = "s elapsed · "@ + standing;
        let after = Seq::<char>::empty();
        assert(report =~= before + part + after);
        text::lemma_contains_part(before, part, after);
        assert(before + part + after =~= before + part);
    }
}

/// A heartbeat is told by the command, the time that went by, and where the prompt
/// stands.
pub proof fn law_heartbeats_tell_the_time(state: ProgressView, elapsed: nat, error: Option<Seq<char>>)
    ensures
        text::contains_text(progress::progress_line(InternalPromptProgressEvent::Heartbeat, state, elapsed, error), "… "@ + state.command_label + " "@),
        text::contains_text(progress::progress_line(InternalPromptProgressEvent::Heartbeat, state, elapsed, error), " heartbeat · "@ + text::decimal(elapsed) + "s"@),
        text::has_suffix(progress::progress_line(InternalPromptProgressEvent::Heartbeat, state, elapsed, error), "s elapsed · "@ + progress::status_text(state)),
{
    lemma_heartbeat_is_told(progress::progress_line(InternalPromptProgressEvent::Heartbeat, state, elapsed, error), state.command_label, text::decimal(elapsed), progress::status_text(state));
}

proof fn lemma_completion_is_told(report: Seq<char>, label: Seq<char>, seconds: Seq<char>, steps: Seq<char>)
    requires
        report == "✔ "@ + label + " status · completed · "@ + seconds + "s elapsed · "@ + steps + " steps total"@,
    ensures
        text::contains_text(report, "✔ "@ + label + " "@),
        text::contains_text(report, " status · completed · "@ + seconds + "s"@),
        text::contains_text(report, "s elapsed · "@ + steps + " "@),
{
    assert(text::contains_text(report, "✔ "@ + label + " "@)) by {
        reveal_strlit("✔ ");
        reveal_strlit(" status · completed · ");
        reveal_strlit(" ");
        reveal_strlit("status · completed · ");
        assert(" status · completed · "@ =~= " "@ + "status · completed · "@);
        let before = Seq::<char>::empty();
        let part = "✔ "@ + label + " "@;
        let after = "status · completed · "@ + seconds + "s elapsed · "@ + steps + " steps total"@;
        assert(report =~= before + part + after);
        text::lemma_contains_part(before, part, after);
    }
    assert(text::contains_text(report, " status · completed · "@ + seconds + "s"@)) by {
        reveal_strlit(" status · completed · ");
        reveal_strlit("s elapsed · ");
        reveal_strlit("s");
        reveal_strlit(" elapsed · ");
        assert("s elapsed · "@ =~= "s"@ + " elapsed · "@);
        let before = "✔ "@ + label;
        let part = " status · completed · "@ + seconds + "s"@;
        let after = " elapsed · "@ + steps + " steps total"@;
        assert(report =~= before + part + after);
        text::lemma_contains_part(before, part, after);
    }
    assert(text::contains_text(report, "s elapsed · "@ + steps + " "@)) by {
        reveal_strlit("s elapsed · ");
        reveal_strlit(" steps total");
        reveal_strlit(" ");
        reveal_strlit("steps total");
        assert(" steps total"@ =~= " "@ + "steps total"@);
        let before = "✔ "@ + label + " status · completed · "@ + seconds;
        let part = "s elapsed · "@ + steps + " "@;
        let after = "steps total"@;
        assert(report =~= before + part + after);
        text::lemma_contains_part(before, part, after);
    }
}

/// A completion is told by the command, the time that went by, and the steps.
pub proof fn law_completions_tell_time_and_steps(state: ProgressView, elapsed: nat, error: Option<Seq<char>>)
    ensures
        text::contains_text(progress::progress_line(InternalPromptProgressEvent::Complete, state, elapsed, error), "✔ "@ + state.command_label + " "@),
        text::contains_text(progress::progress_line(InternalPromptProgressEvent::Complete, state, elapsed, error), " status · completed · "@ + text::decimal(elapsed) + "s"@),
        text::contains_text(progress::progress_line(InternalPromptProgressEvent::Complete, state, elapsed, error), "s elapsed · "@ + text::decimal(state.step as nat) + " "@),
{
    lemma_completion_is_told(progress::progress_line(InternalPromptProgressEvent::Complete, state, elapsed, error), state.command_label, text::decimal(elapsed), text::decimal(state.step as nat));
}

proof fn lemma_failure_is_told(report: Seq<char>, label: Seq<char>, seconds: Seq<char>, why: Seq<char>)
    requires
        report == "✘ "@ + label + " status · failed · "@ + seconds + "s elapsed · "@ + why,
    ensures
        text::contains_text(report, "✘ "@ + label + " "@),
        text::contains_text(report, " status · failed · "@ + seconds + "s"@),
        text::has_suffix(report, "s elapsed · "@ + why),
{
    assert(text::contains_text(report, "✘ "@ + label + " "@)) by {
        reveal_strlit("✘ ");
        reveal_strlit(" status · failed · ");
        reveal_strlit(" ");
        reveal_strlit("status · failed · ");
        assert(" status · failed · "@ =~= " "@ + "status · failed · "@);
        let before = Seq::<char>::empty();
        let part = "✘ "@ + label + " "@;
        let after = "status · failed · "@ + seconds + "s elapsed · "@ + why;
        assert(report =~= before + part + after);
        text::lemma_contains_part(before, part, after);
    }
    assert(text::contains_text(report, " status · failed · "@ + seconds + "s"@)) by {
        reveal_strlit(" status · failed · ");
        reveal_strlit("s elapsed · ");
        reveal_strlit("s");
        reveal_strlit(" elapsed · ");
        assert("s elapsed · "@ =~= "s"@ + " elapsed · "@);
        let before = "✘ "@ + label;
        let part = " status · failed · "@ + seconds + "s"@;
        let after = " elapsed · "@ + why;
        assert(report =~= before + part + after);
        text::lemma_contains_part(before, part, after);
    }
    assert(text::has_suffix(report, "s elapsed · "@ + why)) by {
        reveal_strlit("s elapsed · ");
        let before = "✘ "@ + label + " status · failed · "@ + seconds;
        let part = "s elapsed · "@ + why;
        let after = Seq::<char>::empty();
        assert(report =~= before + part + after);
        text::lemma_contains_part(before, part, after);
        assert(before + part + after =~= before + part);
    }
}

/// A failure is told by the command, the time that went by, and the error.
pub proof fn law_failures_tell_time_and_error(state: ProgressView, elapsed: nat, error: Option<Seq<char>>)
    ensures
        text::contains_text(progress::progress_line(InternalPromptProgressEvent::Failed, state, elapsed, error), "✘ "@ + state.command_label + " "@),
        text::contains_text(progress::progress_line(InternalPromptProgressEvent::Failed, state, elapsed, error), " status · failed · "@ + text::decimal(elapsed) + "s"@),
        text::has_suffix(progress::progress_line(InternalPromptProgressEvent::Failed, state, elapsed, error), "s elapsed · "@ + (if error is Some { error->0 } else { "unknown error"@ })),
{
    lemma_failure_is_told(progress::progress_line(InternalPromptProgressEvent::Failed, state, elapsed, error), state.command_label, text::decimal(elapsed), (if error is Some { error->0 } else { "unknown error"@ }));
}

/// What a call of a file tool is about is what it does and the path of the file;
/// what a search is about is its pattern and where it looks.
pub proof fn law_calls_tell_what_they_are_about(
    name: Seq<char>,
    parsed: JsonView,
    payload: Seq<char>,
)
    ensures
        ({
            let told = progress::tool_progress(name, parsed, payload);
            let path = tool_display::tool_path(parsed);
            let wanted = "`"@ + parsed.str_or("pattern"@, "?"@) + "` in "@ + parsed.str_or(
                "path"@,
                "."@,
            );
            match tool_display::display_tool(name) {
                DisplayTool::Bash => {
                    let command = parsed.str_or("command"@, Seq::empty());
                    &&& command.len() > 0 ==> told.skip(8) == tool_display::summary(
                        text::trimmed(command),
                        100,
                    ) && text::has_prefix(told, "command "@)
                    &&& command.len() == 0 ==> told == "running shell command"@
                },
                DisplayTool::Read => text::has_prefix(told, "reading "@) && told.skip(8) == path,
                DisplayTool::Write => text::has_prefix(told, "writing "@) && told.skip(8) == path,
                DisplayTool::Edit => text::has_prefix(told, "editing "@) && told.skip(8) == path,
                DisplayTool::Glob => text::has_prefix(told, "glob "@) && told.skip(5) == wanted,
                DisplayTool::Grep => text::has_prefix(told, "grep "@) && told.skip(5) == wanted,
                DisplayTool::WebSearch => {
                    &&& parsed.str_field("query"@) is Some ==> text::has_prefix(told, "query "@)
                        && told.skip(6) == tool_display::summary(
                        parsed.str_field("query"@)->0,
                        100,
                    )
                    &&& parsed.str_field("query"@) is None ==> told == "running web search"@
                },
                DisplayTool::Other => {
                    &&& payload.len() > 0 ==> text::has_prefix(told, name + ": "@)
                        && text::has_suffix(told, payload)
                    &&& payload.len() == 0 ==> told == "running "@ + name
                },
            }
        }),
{
    let told = progress::tool_progress(name, parsed, payload);
    let pattern = parsed.str_or("pattern"@, "?"@);
    let place = parsed.str_or("path"@, "."@);
    reveal_strlit("command ");
    reveal_strlit("reading ");
    reveal_strlit("writing ");
    reveal_strlit("editing ");
    reveal_strlit("query ");
    reveal_strlit("glob");
    reveal_strlit("glob ");
    reveal_strlit("grep");
    reveal_strlit("grep ");
    reveal_strlit(" `");
    reveal_strlit("`");
    match tool_display::display_tool(name) {
        DisplayTool::Bash => {
            let command = parsed.str_or("command"@, Seq::empty());
            if command.len() > 0 {
                lemma_starts_with("command "@, told.skip(8), told);
            }
        },
        DisplayTool::Read => {
            lemma_starts_with("reading "@, tool_display::tool_path(parsed), told);
        },
        DisplayTool::Write => {
            lemma_starts_with("writing "@, tool_display::tool_path(parsed), told);
        },
        DisplayTool::Edit => {
            lemma_starts_with("editing "@, tool_display::tool_path(parsed), told);
        },
        DisplayTool::Glob => {
            assert("glob"@ + " `"@ =~= "glob "@ + "`"@);
            assert(told =~= "glob "@ + ("`"@ + pattern + "` in "@ + place));
            lemma_starts_with("glob "@, "`"@ + pattern + "` in "@ + place, told);
        },
        DisplayTool::Grep => {
            assert("grep"@ + " `"@ =~= "grep "@ + "`"@);
            assert(told =~= "grep "@ + ("`"@ + pattern + "` in "@ + place));
            lemma_starts_with("grep "@, "`"@ + pattern + "` in "@ + place, told);
        },
        DisplayTool::WebSearch => {
            if parsed.str_field("query"@) is Some {
                let query = tool_display::summary(parsed.str_field("query"@)->0, 100);
                lemma_starts_with("query "@, query, told);
            }
        },
        DisplayTool::Other => {
            if payload.len() > 0 {
                lemma_starts_with(name + ": "@, payload, told);
            }
        },
    }
}

proof fn lemma_starts_with(head: Seq<char>, tail: Seq<char>, whole: Seq<char>)
    requires
        whole =~= head + tail,
    ensures
        text::has_prefix(whole, head),
        text::has_suffix(whole, tail),
        whole.skip(head.len() as int) == tail,
{
    text::lemma_contains_part(Seq::empty(), head, tail);
    assert(Seq::<char>::empty() + head + tail =~= whole);
    text::lemma_contains_part(head, tail, Seq::empty());
    assert(head + tail + Seq::<char>::empty() =~= whole);
    assert(whole.skip(head.len() as int) =~= tail);
}

/// Every phase takes one step and keeps what the prompt is about. The model first
/// looks at the request and later at what was found; a tool is told by its name
/// and what it is about.
pub proof fn law_phases_take_one_step(
    state: ProgressView,
    name: Seq<char>,
    detail: Seq<char>,
    written: Seq<char>,
)
    requires
        state.step < usize::MAX,
    ensures
        ({
            let asked = progress::model_phase(state);
            let ran = progress::tool_phase(state, name, detail);
            &&& asked.step == state.step + 1
            &&& asked.command_label == state.command_label && asked.task_label == state.task_label
            &&& asked.saw_final_text == state.saw_final_text
            &&& asked.phase == (if state.step == 0 {
                "analyzing request"@
            } else {
                "reviewing findings"@
            })
            &&& asked.detail is Some && text::has_suffix(asked.detail->0, ": "@ + state.task_label)
            &&& ran.step == state.step + 1
            &&& ran.command_label == state.command_label && ran.task_label == state.task_label
            &&& ran.saw_final_text == state.saw_final_text
            &&& ran.detail == Some(detail)
            &&& text::has_suffix(ran.phase, " "@ + name)
            &&& text::has_prefix(ran.phase, "running"@)
        }),
        progress::text_phase(state, written) is Some <==> !state.saw_final_text && !text::is_blank(
            written,
        ),
        progress::text_phase(state, written) is Some ==> ({
            let wrote = progress::text_phase(state, written)->0;
            let said = tool_display::summary(
                tool_display::first_visible(text::trimmed(written)),
                120,
            );
            &&& wrote.step == state.step + 1
            &&& wrote.command_label == state.command_label && wrote.task_label == state.task_label
            &&& wrote.saw_final_text
            &&& wrote.phase == "drafting final plan"@
            &&& wrote.detail is Some <==> said.len() > 0
            &&& wrote.detail is Some ==> wrote.detail->0 == said
        }),
{
    reveal_strlit("task: ");
    reveal_strlit("task");
    reveal_strlit(": ");
    reveal_strlit("running ");
    reveal_strlit("running");
    reveal_strlit(" ");
    assert("task: "@ =~= "task"@ + ": "@);
    assert("running "@ =~= "running"@ + " "@);
    let asked = progress::model_phase(state);
    let ran = progress::tool_phase(state, name, detail);
    lemma_starts_with("task"@, ": "@ + state.task_label, asked.detail->0);
    lemma_starts_with("running"@, " "@ + name, ran.phase);
}

/// A plan starts at no step, with nothing written, and tells its task.
pub proof fn law_plans_start_with_their_task(task: Seq<char>)
    ensures
        ({
            let state = progress::plan_started(task);
            &&& state.step == 0
            &&& !state.saw_final_text
            &&& state.task_label == task
            &&& state.command_label == "Ultraplan"@
            &&& state.phase == "planning started"@
            &&& state.detail == progress::model_phase(state).detail
            &&& progress::model_phase(state).step == 1
        }),
{
}

/// A long command is told in its first 100 characters, and the sign that it was cut.
pub proof fn law_long_commands_are_cut(
    name: Seq<char>,
    parsed: JsonView,
    command: Seq<char>,
    payload: Seq<char>,
)
    requires
        parsed.str_field("command"@) == Some(command),
        text::trimmed(command).len() > 100,
        command.len() > 0,
        tool_display::display_tool(name) is Bash,
    ensures
        progress::tool_progress(name, parsed, payload).skip(8) == text::trimmed(command).take(
            100,
        ) + "…"@,
{
    law_calls_tell_what_they_are_about(name, parsed, payload);
}

} // verus!
