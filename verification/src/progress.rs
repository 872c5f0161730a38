//! Progress of long prompts: the state that is told of, and the lines that tell
//! of it.

use vstd::prelude::*;

use crate::json::{Json, JsonView};
use crate::text;
use crate::tool_display::{self, DisplayTool};

verus! {

/// How far a prompt has come.
#[derive(Debug, PartialEq, Eq)]
pub struct InternalPromptProgressState {
    pub command_label: &'static str,
    pub task_label: String,
    pub step: usize,
    pub phase: String,
    pub detail: Option<String>,
    pub saw_final_text: bool,
}

pub struct ProgressView {
    pub command_label: Seq<char>,
    pub task_label: Seq<char>,
    pub step: usize,
    pub phase: Seq<char>,
    pub detail: Option<Seq<char>>,
    pub saw_final_text: bool,
}

impl InternalPromptProgressState {
    pub open spec fn view(&self) -> ProgressView {
        ProgressView {
            command_label: self.command_label@,
            task_label: self.task_label@,
            step: self.step,
            phase: self.phase@,
            detail: text::opt_text(self.detail),
            saw_final_text: self.saw_final_text,
        }
    }
}

#[derive(Debug, Clone, Copy, PartialEq, Eq, Structural)]
pub enum InternalPromptProgressEvent {
    Started,
    Update,
    Heartbeat,
    Complete,
    Failed,
}

// ---------------------------------------------------------------------------
// Lines
// ---------------------------------------------------------------------------

/// Where a prompt stands: its step, its phase, and a detail.
pub open spec fn status_text(state: ProgressView) -> Seq<char> {
    let step = if state.step == 0 {
        "current step pending"@
    } else {
        "current step "@ + text::decimal(state.step as nat)
    };
    let head = step + " · phase "@ + state.phase;
    match state.detail {
        Some(detail) => if detail.len() > 0 {
            head + " · "@ + detail
        } else {
            head
        },
        None => head,
    }
}

/// The line that tells of an event.
pub open spec fn progress_line(
    event: InternalPromptProgressEvent,
    state: ProgressView,
    elapsed_seconds: nat,
    error: Option<Seq<char>>,
) -> Seq<char> {
    match event {
        InternalPromptProgressEvent::Started => "🧭 "@ + state.command_label
            + " status · planning started · "@ + status_text(state),
        InternalPromptProgressEvent::Update => "… "@ + state.command_label + " status · "@
            + status_text(state),
        InternalPromptProgressEvent::Heartbeat => "… "@ + state.command_label + " heartbeat · "@
            + text::decimal(elapsed_seconds) + "s elapsed · "@ + status_text(state),
        InternalPromptProgressEvent::Complete => "✔ "@ + state.command_label
            + " status · completed · "@ + text::decimal(elapsed_seconds) + "s elapsed · "@
            + text::decimal(state.step as nat) + " steps total"@,
        InternalPromptProgressEvent::Failed => "✘ "@ + state.command_label
            + " status · failed · "@ + text::decimal(elapsed_seconds) + "s elapsed · "@ + (
        match error {
            Some(error) => error,
            None => "unknown error"@,
        }),
    }
}

fn describe_status(state: &InternalPromptProgressState) -> (r: String)
    ensures
        r@ == status_text(state.view()),
{
    let mut out = if state.step == 0 {
        "current step pending".to_string()
    } else {
        let mut step = "current step ".to_string();
        step.append(text::decimal_usize(state.step).as_str());
        step
    };
    out.append(" · phase ");
    out.append(state.phase.as_str());
    match &state.detail {
        Some(detail) => {
            if !detail.as_str().is_empty() {
                out.append(" · ");
                out.append(detail.as_str());
            }
        },
        None => {},
    }
    out
}

pub fn format_internal_prompt_progress_line(
    event: InternalPromptProgressEvent,
    snapshot: &InternalPromptProgressState,
    elapsed_seconds: u64,
    error: Option<&str>,
) -> (r: String)
    ensures
        r@ == progress_line(event, snapshot.view(), elapsed_seconds as nat, text::opt_str(error)),
{
    match event {
        InternalPromptProgressEvent::Started => {
            let mut out = "🧭 ".to_string();
            out.append(snapshot.command_label);
            out.append(" status · planning started · ");
            out.append(describe_status(snapshot).as_str());
            out
        },
        InternalPromptProgressEvent::Update => {
            let mut out = "… ".to_string();
            out.append(snapshot.command_label);
            out.append(" status · ");
            out.append(describe_status(snapshot).as_str());
            out
        },
        InternalPromptProgressEvent::Heartbeat => {
            let mut out = "… ".to_string();
            out.append(snapshot.command_label);
            out.append(" heartbeat · ");
            out.append(text::decimal_u64(elapsed_seconds).as_str());
            out.append("s elapsed · ");
            out.append(describe_status(snapshot).as_str());
            out
        },
        InternalPromptProgressEvent::Complete => {
            let mut out = "✔ ".to_string();
            out.append(snapshot.command_label);
            out.append(" status · completed · ");
            out.append(text::decimal_u64(elapsed_seconds).as_str());
            out.append("s elapsed · ");
            out.append(text::decimal_usize(snapshot.step).as_str());
            out.append(" steps total");
            out
        },
        InternalPromptProgressEvent::Failed => {
            let mut out = "✘ ".to_string();
            out.append(snapshot.command_label);
            out.append(" status · failed · ");
            out.append(text::decimal_u64(elapsed_seconds).as_str());
            out.append("s elapsed · ");
            match error {
                Some(error) => {
                    out.append(error);
                },
                None => {
                    out.append("unknown error");
                },
            }
            out
        },
    }
}

// ---------------------------------------------------------------------------
// Tools
// ---------------------------------------------------------------------------

/// What a search looks for and where.
pub open spec fn search_progress(kind: Seq<char>, parsed: JsonView) -> Seq<char> {
    kind + " `"@ + parsed.str_or("pattern"@, "?"@) + "` in "@ + parsed.str_or("path"@, "."@)
}

fn describe_search(kind: &str, parsed: &Json) -> (r: String)
    ensures
        r@ == search_progress(kind@, parsed.view()),
{
    let mut out = kind.to_string();
    out.append(" `");
    out.append(parsed.str_or("pattern", "?"));
    out.append("` in ");
    out.append(parsed.str_or("path", "."));
    out
}

/// What a tool call is about, from its parsed input; `payload` is the summary
/// of the input for a tool that is not known.
pub open spec fn tool_progress(name: Seq<char>, parsed: JsonView, payload: Seq<char>) -> Seq<char> {
    match tool_display::display_tool(name) {
        DisplayTool::Bash => {
            let command = parsed.str_or("command"@, Seq::empty());
            if command.len() == 0 {
                "running shell command"@
            } else {
                "command "@ + tool_display::summary(text::trimmed(command), 100)
            }
        },
        DisplayTool::Read => "reading "@ + tool_display::tool_path(parsed),
        DisplayTool::Write => "writing "@ + tool_display::tool_path(parsed),
        DisplayTool::Edit => "editing "@ + tool_display::tool_path(parsed),
        DisplayTool::Glob => search_progress("glob"@, parsed),
        DisplayTool::Grep => search_progress("grep"@, parsed),
        DisplayTool::WebSearch => match parsed.str_field("query"@) {
            Some(query) => "query "@ + tool_display::summary(query, 100),
            None => "running web search"@,
        },
        DisplayTool::Other => if payload.len() == 0 {
            "running "@ + name
        } else {
            name + ": "@ + payload
        },
    }
}

/// What a tool call is about, from its parsed input.
pub fn describe_parsed_tool_progress(name: &str, parsed: &Json, payload: &str) -> (r: String)
    ensures
        r@ == tool_progress(name@, parsed.view(), payload@),
{
    match tool_display::display_tool_of(name) {
        DisplayTool::Bash => match parsed.str_field("command") {
            Some(command) => if command.is_empty() {
                "running shell command".to_string()
            } else {
                let mut out = "command ".to_string();
                out.append(
                    tool_display::truncate_for_summary(text::trim(command), 100).as_str(),
                );
                out
            },
            None => "running shell command".to_string(),
        },
        DisplayTool::Read => {
            let mut out = "reading ".to_string();
            out.append(tool_display::extract_tool_path(parsed).as_str());
            out
        },
        DisplayTool::Write => {
            let mut out = "writing ".to_string();
            out.append(tool_display::extract_tool_path(parsed).as_str());
            out
        },
        DisplayTool::Edit => {
            let mut out = "editing ".to_string();
            out.append(tool_display::extract_tool_path(parsed).as_str());
            out
        },
        DisplayTool::Glob => describe_search("glob", parsed),
        DisplayTool::Grep => describe_search("grep", parsed),
        DisplayTool::WebSearch => match parsed.str_field("query") {
            Some(query) => {
                let mut out = "query ".to_string();
                out.append(tool_display::truncate_for_summary(query, 100).as_str());
                out
            },
            None => "running web search".to_string(),
        },
        DisplayTool::Other => if payload.is_empty() {
            let mut out = "running ".to_string();
            out.append(name);
            out
        } else {
            let mut out = name.to_string();
            out.append(": ");
            out.append(payload);
            out
        },
    }
}

/// What a tool call is about, from its input.
pub open spec fn call_progress(name: Seq<char>, input: Seq<char>) -> Seq<char> {
    tool_progress(name, tool_display::read_loosely(input), tool_display::payload_summary(input))
}

/// What a tool call is about.
pub fn describe_tool_progress(name: &str, input: &str) -> (r: String)
    ensures
        r@ == call_progress(name@, input@),
{
    let parsed = tool_display::parse_loosely(input);
    let payload = tool_display::summarize_tool_payload(input);
    describe_parsed_tool_progress(name, &parsed, payload.as_str())
}

// ---------------------------------------------------------------------------
// The reporter
// ---------------------------------------------------------------------------

/// Keeps the state of a prompt and tells of its changes.
#[derive(Debug, PartialEq, Eq)]
pub struct InternalPromptProgressReporter {
    pub state: InternalPromptProgressState,
}

/// The next step; the count stops at the largest number.
pub open spec fn next_step(step: usize) -> usize {
    if step < usize::MAX {
        (step + 1) as usize
    } else {
        step
    }
}

/// The state once the model is asked.
pub open spec fn model_phase(state: ProgressView) -> ProgressView {
    ProgressView {
        step: next_step(state.step),
        phase: if next_step(state.step) == 1 {
            "analyzing request"@
        } else {
            "reviewing findings"@
        },
        detail: Some("task: "@ + state.task_label),
        ..state
    }
}

/// The state once a tool runs.
pub open spec fn tool_phase(state: ProgressView, name: Seq<char>, detail: Seq<char>) -> ProgressView {
    ProgressView {
        step: next_step(state.step),
        phase: "running "@ + name,
        detail: Some(detail),
        ..state
    }
}

/// The state once the model writes: only its first words are told of.
pub open spec fn text_phase(state: ProgressView, written: Seq<char>) -> Option<ProgressView> {
    if text::is_blank(written) || state.saw_final_text {
        None
    } else {
        let detail = tool_display::summary(
            tool_display::first_visible(text::trimmed(written)),
            120,
        );
        Some(
            ProgressView {
                saw_final_text: true,
                step: next_step(state.step),
                phase: "drafting final plan"@,
                detail: if detail.len() > 0 {
                    Some(detail)
                } else {
                    None
                },
                ..state
            },
        )
    }
}

/// The state at the start of a plan for `task`.
pub open spec fn plan_started(task: Seq<char>) -> ProgressView {
    ProgressView {
        command_label: "Ultraplan"@,
        task_label: task,
        step: 0,
        phase: "planning started"@,
        detail: Some("task: "@ + task),
        saw_final_text: false,
    }
}

impl InternalPromptProgressReporter {
    pub open spec fn view(&self) -> ProgressView {
        self.state.view()
    }

    /// The reporter of a plan for `task`.
    pub fn ultraplan(task: &str) -> (r: InternalPromptProgressReporter)
        ensures
            r.view() == plan_started(task@),
    {
        let mut detail = "task: ".to_string();
        detail.append(task);
        InternalPromptProgressReporter {
            state: InternalPromptProgressState {
                command_label: "Ultraplan",
                task_label: task.to_string(),
                step: 0,
                phase: "planning started".to_string(),
                detail: Some(detail),
                saw_final_text: false,
            },
        }
    }

    /// The line that tells of an event in the current state.
    pub fn emit(
        &self,
        event: InternalPromptProgressEvent,
        elapsed_seconds: u64,
        error: Option<&str>,
    ) -> (r: String)
        ensures
            r@ == progress_line(event, self.view(), elapsed_seconds as nat, text::opt_str(error)),
    {
        format_internal_prompt_progress_line(event, &self.state, elapsed_seconds, error)
    }

    /// The line that says that the prompt is still worked on.
    pub fn emit_heartbeat(&self, elapsed_seconds: u64) -> (r: String)
        ensures
            r@ == progress_line(
                InternalPromptProgressEvent::Heartbeat,
                self.view(),
                elapsed_seconds as nat,
                None,
            ),
    {
        self.emit(InternalPromptProgressEvent::Heartbeat, elapsed_seconds, None)
    }

    fn advance(&mut self)
        ensures
            final(self).view() == (ProgressView {
                step: next_step(old(self).view().step),
                ..old(self).view()
            }),
    {
        if self.state.step < usize::MAX {
            self.state.step = self.state.step + 1;
        }
    }

    /// The model is asked; the line tells so.
    pub fn mark_model_phase(&mut self, elapsed_seconds: u64) -> (r: String)
        ensures
            final(self).view() == model_phase(old(self).view()),
            r@ == progress_line(
                InternalPromptProgressEvent::Update,
                model_phase(old(self).view()),
                elapsed_seconds as nat,
                None,
            ),
    {
        self.advance();
        self.state.phase = if self.state.step == 1 {
            "analyzing request".to_string()
        } else {
            "reviewing findings".to_string()
        };
        let mut detail = "task: ".to_string();
        detail.append(self.state.task_label.as_str());
        self.state.detail = Some(detail);
        self.emit(InternalPromptProgressEvent::Update, elapsed_seconds, None)
    }

    /// A tool runs; the line tells so. `detail` says what it is about.
    pub fn mark_described_tool_phase(
        &mut self,
        name: &str,
        detail: String,
        elapsed_seconds: u64,
    ) -> (r: String)
        ensures
            final(self).view() == tool_phase(old(self).view(), name@, detail@),
            r@ == progress_line(
                InternalPromptProgressEvent::Update,
                tool_phase(old(self).view(), name@, detail@),
                elapsed_seconds as nat,
                None,
            ),
    {
        self.advance();
        let mut phase = "running ".to_string();
        phase.append(name);
        self.state.phase = phase;
        self.state.detail = Some(detail);
        self.emit(InternalPromptProgressEvent::Update, elapsed_seconds, None)
    }

    /// A tool runs; the line tells so.
    pub fn mark_tool_phase(&mut self, name: &str, input: &str, elapsed_seconds: u64) -> (r: String)
        ensures
            ({
                let detail = call_progress(name@, input@);
                &&& final(self).view() == tool_phase(old(self).view(), name@, detail)
                &&& r@ == progress_line(
                    InternalPromptProgressEvent::Update,
                    tool_phase(old(self).view(), name@, detail),
                    elapsed_seconds as nat,
                    None,
                )
            }),
    {
        let detail = describe_tool_progress(name, input);
        self.mark_described_tool_phase(name, detail, elapsed_seconds)
    }

    /// The model writes; the line tells so the first time that it writes
    /// anything but white space.
    pub fn mark_text_phase(&mut self, written: &str, elapsed_seconds: u64) -> (r: Option<String>)
        ensures
            match text_phase(old(self).view(), written@) {
                Some(next) => {
                    &&& final(self).view() == next
                    &&& text::opt_text(r) == Some(
                        progress_line(
                            InternalPromptProgressEvent::Update,
                            next,
                            elapsed_seconds as nat,
                            None,
                        ),
                    )
                },
                None => final(self).view() == old(self).view() && r is None,
            },
    {
        proof {
            text::lemma_trimmed_empty_iff_blank(written@);
        }
        let trimmed = text::trim(written);
        if trimmed.is_empty() {
            return None;
        }
        if self.state.saw_final_text {
            return None;
        }
        let first = tool_display::first_visible_line(trimmed);
        let detail = tool_display::truncate_for_summary(first.as_str(), 120);
        self.state.saw_final_text = true;
        self.advance();
        self.state.phase = "drafting final plan".to_string();
        self.state.detail = if detail.as_str().is_empty() {
            None
        } else {
            Some(detail)
        };
        Some(self.emit(InternalPromptProgressEvent::Update, elapsed_seconds, None))
    }
}

/// The writing of the model is told of once.
pub proof fn law_text_is_reported_once(state: ProgressView, first: Seq<char>, second: Seq<char>)
    ensures
        text_phase(state, first) matches Some(next) ==> text_phase(next, second) is None,
{
}

} // verus!
