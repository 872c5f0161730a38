//! The manifest of a sub-agent from its start to its end, and the jobs that
//! run in the background.

use vstd::prelude::*;

use crate::agent::{
    self, AgentInput, BlockerView, LaneCommitProvenance, LaneEventBlocker, ProvenanceView,
};
use crate::text;

verus! {

// ---------------------------------------------------------------------------
// Manifests
// ---------------------------------------------------------------------------

/// What happened to a sub-agent.
#[derive(Debug, PartialEq, Eq)]
pub enum LaneEvent {
    Started { at: String },
    Blocked { at: String, blocker: LaneEventBlocker },
    Failed { at: String, blocker: LaneEventBlocker },
    Finished { at: String, detail: Option<String> },
    CommitCreated { at: String, detail: Option<String>, provenance: LaneCommitProvenance },
}

pub enum LaneView {
    Started { at: Seq<char> },
    Blocked { at: Seq<char>, blocker: BlockerView },
    Failed { at: Seq<char>, blocker: BlockerView },
    Finished { at: Seq<char>, detail: Option<Seq<char>> },
    CommitCreated { at: Seq<char>, detail: Option<Seq<char>>, provenance: ProvenanceView },
}

impl LaneEvent {
    pub open spec fn view(&self) -> LaneView {
        match self {
            LaneEvent::Started { at } => LaneView::Started { at: at@ },
            LaneEvent::Blocked { at, blocker } => LaneView::Blocked {
                at: at@,
                blocker: blocker.view(),
            },
            LaneEvent::Failed { at, blocker } => LaneView::Failed {
                at: at@,
                blocker: blocker.view(),
            },
            LaneEvent::Finished { at, detail } => LaneView::Finished {
                at: at@,
                detail: text::opt_text(*detail),
            },
            LaneEvent::CommitCreated { at, detail, provenance } => LaneView::CommitCreated {
                at: at@,
                detail: text::opt_text(*detail),
                provenance: provenance.view(),
            },
        }
    }
}

pub open spec fn lane_views(events: Seq<LaneEvent>) -> Seq<LaneView> {
    events.map_values(|e: LaneEvent| e.view())
}

/// The manifest of a sub-agent.
#[derive(Debug, PartialEq, Eq)]
pub struct AgentOutput {
    pub agent_id: String,
    pub name: String,
    pub description: String,
    pub subagent_type: Option<String>,
    pub model: Option<String>,
    pub status: String,
    pub output_file: String,
    pub manifest_file: String,
    pub created_at: String,
    pub started_at: Option<String>,
    pub completed_at: Option<String>,
    pub lane_events: Vec<LaneEvent>,
    pub current_blocker: Option<LaneEventBlocker>,
    pub derived_state: String,
    pub error: Option<String>,
    pub result: Option<String>,
}

pub struct ManifestView {
    pub agent_id: Seq<char>,
    pub name: Seq<char>,
    pub description: Seq<char>,
    pub subagent_type: Option<Seq<char>>,
    pub model: Option<Seq<char>>,
    pub status: Seq<char>,
    pub output_file: Seq<char>,
    pub manifest_file: Seq<char>,
    pub created_at: Seq<char>,
    pub started_at: Option<Seq<char>>,
    pub completed_at: Option<Seq<char>>,
    pub lane_events: Seq<LaneView>,
    pub current_blocker: Option<BlockerView>,
    pub derived_state: Seq<char>,
    pub error: Option<Seq<char>>,
    pub result: Option<Seq<char>>,
}

pub open spec fn opt_blocker(blocker: Option<LaneEventBlocker>) -> Option<BlockerView> {
    match blocker {
        Some(blocker) => Some(blocker.view()),
        None => None,
    }
}

impl AgentOutput {
    pub open spec fn view(&self) -> ManifestView {
        ManifestView {
            agent_id: self.agent_id@,
            name: self.name@,
            description: self.description@,
            subagent_type: text::opt_text(self.subagent_type),
            model: text::opt_text(self.model),
            status: self.status@,
            output_file: self.output_file@,
            manifest_file: self.manifest_file@,
            created_at: self.created_at@,
            started_at: text::opt_text(self.started_at),
            completed_at: text::opt_text(self.completed_at),
            lane_events: lane_views(self.lane_events@),
            current_blocker: opt_blocker(self.current_blocker),
            derived_state: self.derived_state@,
            error: text::opt_text(self.error),
            result: text::opt_text(self.result),
        }
    }
}

// ---------------------------------------------------------------------------
// The start
// ---------------------------------------------------------------------------

/// What the start of a sub-agent takes from its surroundings: its identifier,
/// the directory of its files, the time, the canonical token of its type, and
/// the model of agents that ask for none.
pub struct AgentSetting {
    pub agent_id: String,
    pub default_model: String,
    pub output_dir: String,
    pub type_token: String,
    pub created_at: String,
    pub started_at: String,
}

/// The file of a sub-agent with this suffix.
pub open spec fn agent_file(setting: AgentSetting, suffix: Seq<char>) -> Seq<char> {
    text::joined_path(setting.output_dir@, setting.agent_id@ + suffix)
}

/// The manifest with which a sub-agent starts.
pub open spec fn started(input: AgentInput, setting: AgentSetting) -> ManifestView {
    ManifestView {
        agent_id: setting.agent_id@,
        name: agent::agent_name(text::opt_text(input.name), input.description@),
        description: input.description@,
        subagent_type: Some(
            agent::subagent_type(text::opt_text(input.subagent_type), setting.type_token@),
        ),
        model: Some(agent::agent_model(text::opt_text(input.model), setting.default_model@)),
        status: "running"@,
        output_file: agent_file(setting, ".md"@),
        manifest_file: agent_file(setting, ".json"@),
        created_at: setting.created_at@,
        started_at: Some(setting.created_at@),
        completed_at: None,
        lane_events: seq![LaneView::Started { at: setting.started_at@ }],
        current_blocker: None,
        derived_state: "working"@,
        error: None,
        result: None,
    }
}

fn agent_file_path(setting: &AgentSetting, suffix: &str) -> (r: String)
    ensures
        r@ == agent_file(*setting, suffix@),
{
    let mut name = setting.agent_id.clone();
    name.append(suffix);
    text::join_path(setting.output_dir.as_str(), name.as_str())
}

fn opt_as_str(o: &Option<String>) -> (r: Option<&str>)
    ensures
        text::opt_str(r) == text::opt_text(*o),
{
    match o {
        Some(s) => Some(s.as_str()),
        None => None,
    }
}

/// The manifest with which a sub-agent starts, or what is wrong with its input.
pub fn start_agent(input: &AgentInput, setting: &AgentSetting) -> (r: Result<AgentOutput, String>)
    ensures
        match r {
            Ok(manifest) => agent::input_fault(*input) is None && manifest.view() == started(
                *input,
                *setting,
            ),
            Err(message) => agent::input_fault(*input) == Some(message@),
        },
{
    match agent::validate_agent_input(input) {
        Ok(_) => {},
        Err(message) => {
            return Err(message);
        },
    }
    let name = agent::choose_agent_name(opt_as_str(&input.name), input.description.as_str());
    let subagent_type = agent::normalize_subagent_type(
        opt_as_str(&input.subagent_type),
        setting.type_token.as_str(),
    );
    let model = agent::resolve_agent_model(
        opt_as_str(&input.model),
        setting.default_model.as_str(),
    );
    let mut lane_events: Vec<LaneEvent> = Vec::new();
    lane_events.push(LaneEvent::Started { at: setting.started_at.clone() });
    assert(lane_views(lane_events@) =~= seq![LaneView::Started { at: setting.started_at@ }]);
    Ok(
        AgentOutput {
            agent_id: setting.agent_id.clone(),
            name,
            description: input.description.clone(),
            subagent_type: Some(subagent_type),
            model: Some(model),
            status: "running".to_string(),
            output_file: agent_file_path(setting, ".md"),
            manifest_file: agent_file_path(setting, ".json"),
            created_at: setting.created_at.clone(),
            started_at: Some(setting.created_at.clone()),
            completed_at: None,
            lane_events,
            current_blocker: None,
            derived_state: "working".to_string(),
            error: None,
            result: None,
        },
    )
}

/// The document that a sub-agent's output file starts with.
pub open spec fn task_document(manifest: ManifestView, prompt: Seq<char>) -> Seq<char> {
    "# Agent Task\n\n- id: "@ + manifest.agent_id + "\n- name: "@ + manifest.name
        + "\n- description: "@ + manifest.description + "\n- subagent_type: "@ + (
    match manifest.subagent_type {
        Some(kind) => kind,
        None => Seq::empty(),
    }) + "\n- created_at: "@ + manifest.created_at + "\n\n## Prompt\n\n"@ + prompt + "\n"@
}

pub fn agent_task_document(manifest: &AgentOutput, prompt: &str) -> (r: String)
    ensures
        r@ == task_document(manifest.view(), prompt@),
{
    let kind = match &manifest.subagent_type {
        Some(kind) => kind.clone(),
        None => String::new(),
    };
    let mut out = "# Agent Task\n\n- id: ".to_string();
    out.append(manifest.agent_id.as_str());
    out.append("\n- name: ");
    out.append(manifest.name.as_str());
    out.append("\n- description: ");
    out.append(manifest.description.as_str());
    out.append("\n- subagent_type: ");
    out.append(kind.as_str());
    out.append("\n- created_at: ");
    out.append(manifest.created_at.as_str());
    out.append("\n\n## Prompt\n\n");
    out.append(prompt);
    out.append("\n");
    out
}

/// What is told of a sub-agent that could not be started.
pub open spec fn not_spawned(error: Seq<char>) -> Seq<char> {
    "failed to spawn sub-agent: "@ + error
}

/// The error of a sub-agent that could not be started.
pub fn spawn_error(error: &str) -> (r: String)
    ensures
        r@ == not_spawned(error@),
{
    let mut out = "failed to spawn sub-agent: ".to_string();
    out.append(error);
    out
}

/// The instruction that a sub-agent gets.
pub open spec fn agent_instruction(subagent_type: Seq<char>) -> Seq<char> {
    "You are a delegated sub-agent of type `"@ + subagent_type
        + "`. Work only on the delegated task, use only the tools available to you, do not ask the user questions, and finish with a concise result."@
}

/// The position of the first `part` from `from` on.
pub open spec fn position_of(parts: Seq<Seq<char>>, part: Seq<char>, from: int) -> Option<int>
    decreases parts.len() - from,
{
    if from < 0 || from >= parts.len() {
        None
    } else if parts[from] == part {
        Some(from)
    } else {
        position_of(parts, part, from + 1)
    }
}

/// The system prompt of a sub-agent: its instruction stands before the boundary
/// behind which the prompt changes from run to run, or at the end where there
/// is no boundary.
pub open spec fn agent_system_prompt(
    parts: Seq<Seq<char>>,
    boundary: Seq<char>,
    subagent_type: Seq<char>,
) -> Seq<Seq<char>> {
    match position_of(parts, boundary, 0) {
        Some(at) => parts.insert(at, agent_instruction(subagent_type)),
        None => parts.push(agent_instruction(subagent_type)),
    }
}

pub fn build_agent_system_prompt(
    prompt: Vec<String>,
    boundary: &str,
    subagent_type: &str,
) -> (r: Vec<String>)
    ensures
        text::texts(r@) == agent_system_prompt(text::texts(prompt@), boundary@, subagent_type@),
{
    let ghost parts = text::texts(prompt@);
    let mut instruction = "You are a delegated sub-agent of type `".to_string();
    instruction.append(subagent_type);
    instruction.append(
        "`. Work only on the delegated task, use only the tools available to you, do not ask the user questions, and finish with a concise result.",
    );
    let mut i: usize = 0;
    while i < prompt.len()
        invariant
            parts == text::texts(prompt@),
            i <= prompt@.len(),
            position_of(parts, boundary@, 0) == position_of(parts, boundary@, i as int),
        ensures
            i <= prompt@.len(),
            i < prompt@.len() ==> position_of(parts, boundary@, 0) == Some(i as int),
            i == prompt@.len() ==> position_of(parts, boundary@, 0) is None,
        decreases prompt.len() - i,
    {
        assert(parts[i as int] == prompt@[i as int]@);
        if text::str_eq(prompt[i].as_str(), boundary) {
            break ;
        }
        i += 1;
    }
    let mut out = prompt;
    out.insert(i, instruction);
    assert(text::texts(out@) =~= parts.insert(i as int, instruction@));
    assert(parts.insert(parts.len() as int, instruction@) =~= parts.push(instruction@));
    out
}

/// The date that a sub-agent is told: the configured one, or else what the
/// system says, or else a fixed day.
pub open spec fn system_date(configured: Option<Seq<char>>, system: Option<Seq<char>>) -> Seq<char> {
    if configured matches Some(date) && text::trimmed(date).len() > 0 {
        text::trimmed(configured->0)
    } else if system matches Some(date) && text::trimmed(date).len() > 0 {
        text::trimmed(system->0)
    } else {
        "2026-03-31"@
    }
}

pub fn agent_system_date(configured: Option<&str>, system: Option<&str>) -> (r: String)
    ensures
        r@ == system_date(text::opt_str(configured), text::opt_str(system)),
{
    match configured {
        Some(date) => {
            let date = text::trim(date);
            if !date.is_empty() {
                return date.to_string();
            }
        },
        None => {},
    }
    match system {
        Some(date) => {
            let date = text::trim(date);
            if !date.is_empty() {
                return date.to_string();
            }
        },
        None => {},
    }
    "2026-03-31".to_string()
}

/// The directory of the manifests.
pub open spec fn store_dir(
    configured: Option<Seq<char>>,
    workspace_root: Option<Seq<char>>,
    cwd: Seq<char>,
) -> Seq<char> {
    match (configured, workspace_root) {
        (Some(path), _) => path,
        (None, Some(root)) => text::joined_path(root, ".clawd-agents"@),
        (None, None) => text::joined_path(cwd, ".clawd-agents"@),
    }
}

/// The directory of the manifests: the configured one, or else one beside the
/// directory two levels above the current one, or else one in the latter.
pub fn agent_store_dir(configured: Option<&str>, workspace_root: Option<&str>, cwd: &str) -> (r:
    String)
    ensures
        r@ == store_dir(text::opt_str(configured), text::opt_str(workspace_root), cwd@),
{
    match configured {
        Some(path) => path.to_string(),
        None => match workspace_root {
            Some(root) => text::join_path(root, ".clawd-agents"),
            None => text::join_path(cwd, ".clawd-agents"),
        },
    }
}

// ---------------------------------------------------------------------------
// The end
// ---------------------------------------------------------------------------

/// What the end of a sub-agent takes from its surroundings: the time, the
/// current branch and directory, and its result in compressed form.
pub struct EndSetting {
    pub now: String,
    pub branch: Option<String>,
    pub worktree: Option<String>,
    pub compressed_result: String,
}

/// What is added to the history of a sub-agent when it ends.
pub open spec fn final_events(
    result: Option<Seq<char>>,
    error: Option<Seq<char>>,
    setting: EndSetting,
) -> Seq<LaneView> {
    let at = setting.now@;
    match error {
        Some(error) => seq![
            LaneView::Blocked { at, blocker: agent::blocker_of(error) },
            LaneView::Failed { at, blocker: agent::blocker_of(error) },
        ],
        None => {
            let finished = LaneView::Finished {
                at,
                detail: if result matches Some(result) && !text::is_blank(result) {
                    Some(setting.compressed_result@)
                } else {
                    None
                },
            };
            let provenance = agent::provenance_of(
                result,
                text::opt_text(setting.branch),
                text::opt_text(setting.worktree),
            );
            match provenance {
                Some(provenance) => seq![
                    finished,
                    LaneView::CommitCreated {
                        at,
                        detail: Some("commit "@ + provenance.commit),
                        provenance,
                    },
                ],
                None => seq![finished],
            }
        },
    }
}

/// The manifest with which a sub-agent ends.
pub open spec fn finished(
    manifest: ManifestView,
    status: Seq<char>,
    result: Option<Seq<char>>,
    error: Option<Seq<char>>,
    setting: EndSetting,
) -> ManifestView {
    ManifestView {
        status,
        completed_at: Some(setting.now@),
        current_blocker: match error {
            Some(error) => Some(agent::blocker_of(error)),
            None => None,
        },
        derived_state: agent::agent_state(status, result, error),
        error,
        result,
        lane_events: manifest.lane_events + final_events(result, error, setting),
        ..manifest
    }
}

proof fn lemma_lane_push(events: Seq<LaneEvent>, event: LaneEvent)
    ensures
        lane_views(events.push(event)) == lane_views(events).push(event.view()),
{
    assert(lane_views(events.push(event)) =~= lane_views(events).push(event.view()));
}

fn is_blank_str(s: &str) -> (r: bool)
    ensures
        r == text::is_blank(s@),
{
    proof {
        text::lemma_trimmed_empty_iff_blank(s@);
    }
    text::trim(s).is_empty()
}

fn push_final_events(
    events: &mut Vec<LaneEvent>,
    result: Option<&str>,
    error: Option<&str>,
    setting: &EndSetting,
)
    ensures
        lane_views(final(events)@) == lane_views(old(events)@) + final_events(
            text::opt_str(result),
            text::opt_str(error),
            *setting,
        ),
{
    let ghost before = events@;
    match error {
        Some(error) => {
            let blocked = LaneEvent::Blocked {
                at: setting.now.clone(),
                blocker: agent::classify_lane_blocker(error),
            };
            let failed = LaneEvent::Failed {
                at: setting.now.clone(),
                blocker: agent::classify_lane_blocker(error),
            };
            proof {
                lemma_lane_push(before, blocked);
                lemma_lane_push(before.push(blocked), failed);
            }
            events.push(blocked);
            events.push(failed);
        },
        None => {
            let detail = match result {
                Some(result) => if is_blank_str(result) {
                    None
                } else {
                    Some(setting.compressed_result.clone())
                },
                None => None,
            };
            let done = LaneEvent::Finished { at: setting.now.clone(), detail };
            proof {
                lemma_lane_push(before, done);
            }
            events.push(done);
            match agent::maybe_commit_provenance(
                result,
                opt_as_str(&setting.branch),
                opt_as_str(&setting.worktree),
            ) {
                Some(provenance) => {
                    let mut detail = "commit ".to_string();
                    detail.append(provenance.commit.as_str());
                    let created = LaneEvent::CommitCreated {
                        at: setting.now.clone(),
                        detail: Some(detail),
                        provenance,
                    };
                    proof {
                        lemma_lane_push(before.push(done), created);
                    }
                    events.push(created);
                },
                None => {},
            }
        },
    }
    assert(lane_views(events@) =~= lane_views(before) + final_events(
        text::opt_str(result),
        text::opt_str(error),
        *setting,
    ));
}

/// The manifest with which a sub-agent ends.
pub fn finish_agent(
    manifest: AgentOutput,
    status: &str,
    result: Option<&str>,
    error: Option<&str>,
    setting: &EndSetting,
) -> (r: AgentOutput)
    ensures
        r.view() == finished(
            manifest.view(),
            status@,
            text::opt_str(result),
            text::opt_str(error),
            *setting,
        ),
{
    let mut next = manifest;
    next.status = status.to_string();
    next.completed_at = Some(setting.now.clone());
    next.derived_state = agent::derive_agent_state(status, result, error, None).to_string();
    next.current_blocker = match error {
        Some(error) => Some(agent::classify_lane_blocker(error)),
        None => None,
    };
    next.error = text::opt_to_string(error);
    next.result = text::opt_to_string(result);
    push_final_events(&mut next.lane_events, result, error, setting);
    next
}

/// The manifest that the caller of a sub-agent is told of.
pub open spec fn told_manifest(
    read_back: Result<AgentOutput, String>,
    at_hand: AgentOutput,
) -> AgentOutput {
    match read_back {
        Ok(manifest) => manifest,
        Err(_) => at_hand,
    }
}

/// The outcome of a background job that ended by itself.
pub open spec fn job_result(read_back: Result<AgentOutput, String>) -> JobOutcome {
    JobOutcome::Completed {
        result: match read_back {
            Ok(manifest) => manifest.result,
            Err(_) => None,
        },
    }
}

/// The manifest that the caller of a sub-agent is told of: the one on disk as it
/// was read back, and where that failed the one at hand.
pub fn final_manifest(read_back: Result<AgentOutput, String>, at_hand: AgentOutput) -> (r:
    AgentOutput)
    ensures
        r == told_manifest(read_back, at_hand),
{
    match read_back {
        Ok(manifest) => manifest,
        Err(_) => at_hand,
    }
}

/// The outcome of a background job that ended by itself, from its manifest as it
/// was read back: without a manifest it has no result.
pub fn completed_job(read_back: Result<AgentOutput, String>) -> (r: JobOutcome)
    ensures
        r == job_result(read_back),
{
    match read_back {
        Ok(manifest) => JobOutcome::Completed { result: manifest.result },
        Err(_) => JobOutcome::Completed { result: None },
    }
}

/// The part of the output file that tells how a sub-agent ended.
pub open spec fn terminal_output(
    status: Seq<char>,
    result: Option<Seq<char>>,
    blocker: Option<(Seq<char>, Seq<char>)>,
    error: Option<Seq<char>>,
) -> Seq<char> {
    let head = "\n## Result\n\n- status: "@ + status + "\n"@;
    let with_blocker = match blocker {
        Some((class, detail)) => head + "\n### Blocker\n\n- failure_class: "@ + class
            + "\n- detail: "@ + text::trimmed(detail) + "\n"@,
        None => head,
    };
    let with_result = match result {
        Some(result) => if text::is_blank(result) {
            with_blocker
        } else {
            with_blocker + "\n### Final response\n\n"@ + text::trimmed(result) + "\n"@
        },
        None => with_blocker,
    };
    match error {
        Some(error) => if text::is_blank(error) {
            with_result
        } else {
            with_result + "\n### Error\n\n"@ + text::trimmed(error) + "\n"@
        },
        None => with_result,
    }
}

pub open spec fn blocker_words(blocker: Option<(&str, &str)>) -> Option<(Seq<char>, Seq<char>)> {
    match blocker {
        Some((class, detail)) => Some((class@, detail@)),
        None => None,
    }
}

/// The part of the output file that tells how a sub-agent ended. A blocker is
/// given by the name of its class and its detail.
pub fn format_agent_terminal_output(
    status: &str,
    result: Option<&str>,
    blocker: Option<(&str, &str)>,
    error: Option<&str>,
) -> (r: String)
    ensures
        r@ == terminal_output(
            status@,
            text::opt_str(result),
            blocker_words(blocker),
            text::opt_str(error),
        ),
{
    let mut out = "\n## Result\n\n- status: ".to_string();
    out.append(status);
    out.append("\n");
    match blocker {
        Some((class, detail)) => {
            out.append("\n### Blocker\n\n- failure_class: ");
            out.append(class);
            out.append("\n- detail: ");
            out.append(text::trim(detail));
            out.append("\n");
        },
        None => {},
    }
    match result {
        Some(result) => {
            if !is_blank_str(result) {
                out.append("\n### Final response\n\n");
                out.append(text::trim(result));
                out.append("\n");
            }
        },
        None => {},
    }
    match error {
        Some(error) => {
            if !is_blank_str(error) {
                out.append("\n### Error\n\n");
                out.append(text::trim(error));
                out.append("\n");
            }
        },
        None => {},
    }
    out
}

// ---------------------------------------------------------------------------
// Background jobs
// ---------------------------------------------------------------------------

/// How the thread of a background job came out.
#[derive(Debug, PartialEq, Eq)]
pub enum JobOutcome {
    /// The job ended; its result is what its manifest holds then.
    Completed { result: Option<String> },
    Failed { error: String },
    Panicked,
}

/// What is done about a background job that is over.
#[derive(Debug, PartialEq, Eq)]
pub struct JobSettlement {
    /// The error that its manifest is ended with, where it has not ended itself.
    pub persist_error: Option<String>,
    /// What is added to the output of its task.
    pub output: String,
    /// Whether its task counts as completed rather than failed.
    pub completed: bool,
}

impl JobSettlement {
    /// The word for the end of the job.
    pub open spec fn status_text(self) -> Seq<char> {
        if self.completed {
            "completed"@
        } else {
            "failed"@
        }
    }

    pub fn status(&self) -> (r: &'static str)
        ensures
            r@ == self.status_text(),
    {
        if self.completed {
            "completed"
        } else {
            "failed"
        }
    }
}

/// Whether this is what is done about a background job that came out so.
pub open spec fn settles(settlement: JobSettlement, outcome: JobOutcome) -> bool {
    match outcome {
        JobOutcome::Completed { result } => {
            &&& settlement.persist_error is None
            &&& settlement.completed
            &&& settlement.output@ == (match text::opt_text(result) {
                Some(result) => result,
                None => Seq::empty(),
            })
        },
        JobOutcome::Failed { error } => {
            &&& text::opt_text(settlement.persist_error) == Some(error@)
            &&& !settlement.completed
            &&& settlement.output@ == error@
        },
        JobOutcome::Panicked => {
            &&& text::opt_text(settlement.persist_error) == Some("sub-agent thread panicked"@)
            &&& !settlement.completed
            &&& settlement.output@ == "sub-agent thread panicked"@
        },
    }
}

/// What is done about a background job that is over.
pub fn settle_background_job(outcome: JobOutcome) -> (r: JobSettlement)
    ensures
        settles(r, outcome),
{
    match outcome {
        JobOutcome::Completed { result } => JobSettlement {
            persist_error: None,
            output: match result {
                Some(result) => result,
                None => String::new(),
            },
            completed: true,
        },
        JobOutcome::Failed { error } => JobSettlement {
            persist_error: Some(error.clone()),
            output: error,
            completed: false,
        },
        JobOutcome::Panicked => JobSettlement {
            persist_error: Some("sub-agent thread panicked".to_string()),
            output: "sub-agent thread panicked".to_string(),
            completed: false,
        },
    }
}

/// What the session that started a background job is told at its end.
pub open spec fn notification(
    manifest: ManifestView,
    status: Seq<char>,
    body: Seq<char>,
) -> Seq<char> {
    let head = "Background agent finished.\nagentId: "@ + manifest.agent_id + "\ndescription: "@
        + manifest.description + "\nstatus: "@ + status + "\noutput_file: "@ + manifest.output_file;
    if text::is_blank(body) {
        head
    } else {
        head + "\n"@ + (if text::lowered(status) == text::lowered("completed"@) {
            "result"@
        } else {
            "error"@
        }) + ":\n"@ + text::trimmed(body)
    }
}

/// Who is told of the end of a background job, and what.
pub open spec fn told_of_end(
    manifest: ManifestView,
    parent_session_id: Option<Seq<char>>,
    status: Seq<char>,
    body: Seq<char>,
) -> Option<(Seq<char>, Seq<char>)> {
    match parent_session_id {
        Some(session_id) => Some((session_id, notification(manifest, status, body))),
        None => None,
    }
}

pub open spec fn opt_pair(pair: Option<(String, String)>) -> Option<(Seq<char>, Seq<char>)> {
    match pair {
        Some((first, second)) => Some((first@, second@)),
        None => None,
    }
}

/// What the session that started a background job is told at its end; nothing
/// where no session did.
pub fn background_agent_notification(
    manifest: &AgentOutput,
    parent_session_id: Option<&str>,
    status: &str,
    body: &str,
) -> (r: Option<(String, String)>)
    ensures
        opt_pair(r) == told_of_end(
            manifest.view(),
            text::opt_str(parent_session_id),
            status@,
            body@,
        ),
{
    let session_id = match parent_session_id {
        Some(session_id) => session_id.to_string(),
        None => {
            return None;
        },
    };
    let mut message = "Background agent finished.\nagentId: ".to_string();
    message.append(manifest.agent_id.as_str());
    message.append("\ndescription: ");
    message.append(manifest.description.as_str());
    message.append("\nstatus: ");
    message.append(status);
    message.append("\noutput_file: ");
    message.append(manifest.output_file.as_str());
    if !is_blank_str(body) {
        message.append("\n");
        if text::eq_ignore_case(status, "completed") {
            message.append("result");
        } else {
            message.append("error");
        }
        message.append(":\n");
        message.append(text::trim(body));
    }
    Some((session_id, message))
}

/// What the start of a background job answers.
#[derive(Debug, PartialEq, Eq)]
pub struct AsyncAgentLaunchOutput {
    pub status: String,
    pub agent_id: String,
    pub description: String,
    pub prompt: String,
    pub output_file: String,
}

/// Whether this is what the start of a background job answers.
pub open spec fn announces(
    launch: AsyncAgentLaunchOutput,
    manifest: ManifestView,
    prompt: Seq<char>,
) -> bool {
    &&& launch.status@ == "async_launched"@
    &&& launch.agent_id@ == manifest.agent_id
    &&& launch.description@ == manifest.description
    &&& launch.prompt@ == prompt
    &&& launch.output_file@ == manifest.output_file
}

pub fn build_async_agent_launch_output(manifest: &AgentOutput, prompt: &str) -> (r:
    AsyncAgentLaunchOutput)
    ensures
        announces(r, manifest.view(), prompt@),
{
    AsyncAgentLaunchOutput {
        status: "async_launched".to_string(),
        agent_id: manifest.agent_id.clone(),
        description: manifest.description.clone(),
        prompt: prompt.to_string(),
        output_file: manifest.output_file.clone(),
    }
}

/// What a call that starts a sub-agent answers.
#[derive(Debug, PartialEq, Eq)]
pub enum AgentToolOutput {
    Completed(AgentOutput),
    AsyncLaunched(AsyncAgentLaunchOutput),
}

/// Whether a sub-agent runs in the background.
pub open spec fn in_background(input: AgentInput) -> bool {
    input.run_in_background == Some(true)
}

/// Whether this is what a call that starts a sub-agent answers.
pub open spec fn is_answer(
    answer: AgentToolOutput,
    input: AgentInput,
    manifest: AgentOutput,
) -> bool {
    if in_background(input) {
        answer matches AgentToolOutput::AsyncLaunched(launch) && announces(
            launch,
            manifest.view(),
            input.prompt@,
        )
    } else {
        answer == AgentToolOutput::Completed(manifest)
    }
}

/// What a call that starts a sub-agent answers, from the manifest that it has
/// once the call is over: a background job is only announced.
pub fn agent_tool_output(input: &AgentInput, manifest: AgentOutput) -> (r: AgentToolOutput)
    ensures
        is_answer(r, *input, manifest),
{
    let background = match input.run_in_background {
        Some(background) => background,
        None => false,
    };
    if background {
        AgentToolOutput::AsyncLaunched(
            build_async_agent_launch_output(&manifest, input.prompt.as_str()),
        )
    } else {
        AgentToolOutput::Completed(manifest)
    }
}

// ---------------------------------------------------------------------------
// Laws
// ---------------------------------------------------------------------------

/// A sub-agent that has started works until it ends: it carries no error, no
/// result and no blocker, and its state says that it works.
pub proof fn law_started_agents_work(input: AgentInput, setting: AgentSetting)
    ensures
        ({
            let manifest = started(input, setting);
            &&& manifest.derived_state == agent::agent_state(manifest.status, None, None)
            &&& manifest.completed_at is None
            &&& manifest.current_blocker is None
        }),
{
    reveal_strlit("running");
    lemma_running_is_normal();
}

proof fn lemma_running_is_normal()
    ensures
        text::lowered(text::trimmed("running"@)) == "running"@,
{
    reveal_strlit("running");
    let s = "running"@;
    assert(!text::is_whitespace(s[0]));
    assert(text::trim_start(s) == s);
    assert(!text::is_whitespace(s.last()));
    assert(text::trim_end(s) == s);
    assert(text::lowered(s) =~= s);
}

/// The end of a sub-agent only adds to its history, and keeps what identifies
/// it.
pub proof fn law_ending_keeps_identity_and_history(
    manifest: ManifestView,
    status: Seq<char>,
    result: Option<Seq<char>>,
    error: Option<Seq<char>>,
    setting: EndSetting,
)
    ensures
        ({
            let end = finished(manifest, status, result, error, setting);
            &&& end.agent_id == manifest.agent_id
            &&& end.name == manifest.name
            &&& end.output_file == manifest.output_file
            &&& end.manifest_file == manifest.manifest_file
            &&& end.created_at == manifest.created_at
            &&& manifest.lane_events.is_prefix_of(end.lane_events)
            &&& end.lane_events.len() > manifest.lane_events.len()
            &&& end.current_blocker is Some <==> error is Some
        }),
{
    let end = finished(manifest, status, result, error, setting);
    assert(manifest.lane_events =~= end.lane_events.take(manifest.lane_events.len() as int));
}

} // verus!
