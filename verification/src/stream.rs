//! The events of a streamed model response, and the state machine that turns
//! them into the events of a turn.

use std::collections::{BTreeMap, BTreeSet};

use vstd::prelude::*;

use crate::json;
use crate::text;

verus! {

broadcast use vstd::std_specs::btree::group_btree_axioms;

// ---------------------------------------------------------------------------
// What a provider sends
// ---------------------------------------------------------------------------

/// A block of a model response. The input of a tool call is the compact JSON
/// text of its document.
#[derive(Debug, PartialEq, Eq)]
pub enum OutputContentBlock {
    Text { text: String },
    ToolUse { id: String, name: String, input: String },
    Thinking { thinking: String, signature: Option<String> },
    RedactedThinking { data: String },
}

impl OutputContentBlock {
    /// The block of a tool call whose input another part of the program holds
    /// as a document.
    pub fn tool_use(id: String, name: String, input: &serde_json::Value) -> (r: OutputContentBlock)
        ensures
            r matches OutputContentBlock::ToolUse { id: i, name: n, input: t } && i == id && n
                == name && t@ == json::json_compact(json::value_json(*input)) && (t@ == "{}"@
                <==> json::value_json(*input) == json::JsonView::Object(Seq::empty())),
    {
        OutputContentBlock::ToolUse { id, name, input: json::compact_text(input) }
    }
}

#[derive(Debug, PartialEq, Eq)]
pub enum ContentBlockDelta {
    TextDelta { text: String },
    InputJsonDelta { partial_json: String },
    ThinkingDelta { thinking: String },
    SignatureDelta { signature: String },
}

#[derive(Debug, Clone, Copy, PartialEq, Eq, Structural)]
pub struct TokenUsage {
    pub input_tokens: u32,
    pub output_tokens: u32,
    pub cache_creation_input_tokens: u32,
    pub cache_read_input_tokens: u32,
}

#[derive(Debug, PartialEq, Eq)]
pub enum StreamEvent {
    MessageStart { content: Vec<OutputContentBlock> },
    ContentBlockStart { index: u32, content_block: OutputContentBlock },
    ContentBlockDelta { index: u32, delta: ContentBlockDelta },
    ContentBlockStop { index: u32 },
    MessageDelta { stop_reason: Option<String>, stop_sequence: Option<String>, usage: TokenUsage },
    MessageStop,
}

/// A response that was not streamed.
#[derive(Debug, PartialEq, Eq)]
pub struct MessageResponse {
    pub content: Vec<OutputContentBlock>,
    pub usage: TokenUsage,
}

/// What the prompt cache of a provider client noticed about a request.
#[derive(Debug, PartialEq, Eq)]
pub struct PromptCacheEvent {
    pub unexpected: bool,
    pub reason: String,
    pub reason_code: String,
    pub diagnostic_scope: String,
    pub changed_components: Vec<String>,
    pub previous_cache_read_input_tokens: u32,
    pub current_cache_read_input_tokens: u32,
    pub token_drop: u32,
    pub elapsed_seconds: u64,
}

/// The record that a provider client keeps of its last request.
#[derive(Debug, PartialEq, Eq)]
pub struct PromptCacheRecord {
    pub cache_break: Option<PromptCacheEvent>,
}

// ---------------------------------------------------------------------------
// What a turn is made of
// ---------------------------------------------------------------------------

#[derive(Debug, PartialEq, Eq)]
pub enum AssistantEvent {
    TextDelta(String),
    ToolUse { id: String, name: String, input: String },
    Usage(TokenUsage),
    PromptCache(PromptCacheEvent),
    MessageStop,
}

pub enum EventView {
    TextDelta(Seq<char>),
    ToolUse { id: Seq<char>, name: Seq<char>, input: Seq<char> },
    Usage(TokenUsage),
    PromptCache(PromptCacheEvent),
    MessageStop,
}

impl AssistantEvent {
    pub open spec fn view(&self) -> EventView {
        match self {
            AssistantEvent::TextDelta(text) => EventView::TextDelta(text@),
            AssistantEvent::ToolUse { id, name, input } => EventView::ToolUse {
                id: id@,
                name: name@,
                input: input@,
            },
            AssistantEvent::Usage(usage) => EventView::Usage(*usage),
            AssistantEvent::PromptCache(event) => EventView::PromptCache(*event),
            AssistantEvent::MessageStop => EventView::MessageStop,
        }
    }
}

pub open spec fn event_views(events: Seq<AssistantEvent>) -> Seq<EventView> {
    events.map_values(|e: AssistantEvent| e.view())
}

/// A tool call whose input is still arriving.
#[derive(Debug, PartialEq, Eq)]
pub struct PendingTool {
    pub id: String,
    pub name: String,
    pub input: String,
}

pub struct PendingView {
    pub id: Seq<char>,
    pub name: Seq<char>,
    pub input: Seq<char>,
}

impl PendingTool {
    pub open spec fn view(&self) -> PendingView {
        PendingView { id: self.id@, name: self.name@, input: self.input@ }
    }
}

pub open spec fn pending_view(pending: Map<u32, PendingTool>) -> Map<u32, PendingView> {
    pending.map_values(|t: PendingTool| t.view())
}

/// What is shown, or reported as progress, while a response arrives.
#[derive(Debug, PartialEq, Eq)]
pub enum Show {
    /// A complete Markdown text.
    MarkdownBlock(String),
    /// The next piece of a Markdown text that arrives in pieces.
    MarkdownPiece(String),
    /// The end of a Markdown text that arrives in pieces.
    MarkdownEnd,
    /// A text that is written as it is.
    Plain(String),
    /// A tool call whose input is complete.
    ToolCall { name: String, input: String },
}

pub enum ShowView {
    MarkdownBlock(Seq<char>),
    MarkdownPiece(Seq<char>),
    MarkdownEnd,
    Plain(Seq<char>),
    ToolCall { name: Seq<char>, input: Seq<char> },
}

impl Show {
    pub open spec fn view(&self) -> ShowView {
        match self {
            Show::MarkdownBlock(text) => ShowView::MarkdownBlock(text@),
            Show::MarkdownPiece(text) => ShowView::MarkdownPiece(text@),
            Show::MarkdownEnd => ShowView::MarkdownEnd,
            Show::Plain(text) => ShowView::Plain(text@),
            Show::ToolCall { name, input } => ShowView::ToolCall { name: name@, input: input@ },
        }
    }
}

pub open spec fn show_views(shows: Seq<Show>) -> Seq<ShowView> {
    shows.map_values(|s: Show| s.view())
}

// ---------------------------------------------------------------------------
// Tool input
// ---------------------------------------------------------------------------

/// The input of a tool call that has none is the empty object.
pub open spec fn normalized_input(input: Seq<char>) -> Seq<char> {
    if text::is_blank(input) {
        "{}"@
    } else {
        input
    }
}

fn is_blank_str(input: &str) -> (r: bool)
    ensures
        r == text::is_blank(input@),
{
    proof {
        text::lemma_trimmed_empty_iff_blank(input@);
    }
    text::trim(input).is_empty()
}

pub fn normalize_tool_input_json(input: &str) -> (r: &str)
    ensures
        r@ == normalized_input(input@),
{
    if is_blank_str(input) {
        "{}"
    } else {
        input
    }
}

pub fn normalize_tool_input_string(input: String) -> (r: String)
    ensures
        r@ == normalized_input(input@),
{
    if is_blank_str(input.as_str()) {
        "{}".to_string()
    } else {
        input
    }
}

/// The verdict on the input of a tool call, from what parsing it gave.
pub open spec fn verdict(parsed: Result<json::JsonView, Seq<char>>) -> Result<(), Seq<char>> {
    match parsed {
        Ok(_) => Ok(()),
        Err(message) => Err(message),
    }
}

pub open spec fn verdict_view(r: Result<(), String>) -> Result<(), Seq<char>> {
    match r {
        Ok(_) => Ok(()),
        Err(message) => Err(message@),
    }
}

/// Whether the input of a tool call is JSON; the parser's message where not.
pub fn validate_tool_input_json(input: &str) -> (r: Result<(), String>)
    ensures
        verdict_view(r) == verdict(json::json_parse(normalized_input(input@))),
{
    match json::parse_json(normalize_tool_input_json(input)) {
        Ok(_) => Ok(()),
        Err(message) => Err(message),
    }
}

// ---------------------------------------------------------------------------
// Thinking
// ---------------------------------------------------------------------------

/// The line that stands for a block of thinking.
pub open spec fn thinking_summary(char_count: Option<nat>, redacted: bool) -> Seq<char> {
    if redacted {
        "\n▶ Thinking block hidden by provider\n"@
    } else {
        match char_count {
            Some(n) => "\n▶ Thinking ("@ + text::decimal(n) + " chars hidden)\n"@,
            None => "\n▶ Thinking hidden\n"@,
        }
    }
}

pub open spec fn opt_nat(n: Option<usize>) -> Option<nat> {
    match n {
        Some(n) => Some(n as nat),
        None => None,
    }
}

pub fn render_thinking_block_summary(char_count: Option<usize>, redacted: bool) -> (r: String)
    ensures
        r@ == thinking_summary(opt_nat(char_count), redacted),
{
    if redacted {
        "\n▶ Thinking block hidden by provider\n".to_string()
    } else {
        match char_count {
            Some(n) => {
                let mut out = "\n▶ Thinking (".to_string();
                out.append(text::decimal_usize(n).as_str());
                out.append(" chars hidden)\n");
                out
            },
            None => "\n▶ Thinking hidden\n".to_string(),
        }
    }
}

// ---------------------------------------------------------------------------
// The state of a stream
// ---------------------------------------------------------------------------

/// Whether a block opens a tool call.
pub open spec fn is_tool_use(block: OutputContentBlock) -> bool {
    block is ToolUse
}

/// What is known of a response while it arrives.
pub struct StreamState {
    pub events: Vec<AssistantEvent>,
    pub pending_tools: BTreeMap<u32, PendingTool>,
    pub tool_block_indices: BTreeSet<u32>,
    pub tool_input_delta_counts: BTreeMap<u32, usize>,
    pub block_has_thinking_summary: bool,
    pub saw_stop: bool,
    pub received_any_event: bool,
}

pub struct StreamView {
    pub events: Seq<EventView>,
    pub pending: Map<u32, PendingView>,
    pub tool_blocks: Set<u32>,
    pub delta_counts: Map<u32, usize>,
    pub thinking_shown: bool,
    pub saw_stop: bool,
    pub received_any_event: bool,
}

impl StreamState {
    pub open spec fn view(&self) -> StreamView {
        StreamView {
            events: event_views(self.events@),
            pending: pending_view(self.pending_tools@),
            tool_blocks: self.tool_block_indices@,
            delta_counts: self.tool_input_delta_counts@,
            thinking_shown: self.block_has_thinking_summary,
            saw_stop: self.saw_stop,
            received_any_event: self.received_any_event,
        }
    }
}

impl StreamView {
    /// Before anything has arrived.
    pub open spec fn initial() -> StreamView {
        StreamView {
            events: Seq::empty(),
            pending: Map::empty(),
            tool_blocks: Set::empty(),
            delta_counts: Map::empty(),
            thinking_shown: false,
            saw_stop: false,
            received_any_event: false,
        }
    }

    /// The tool calls that are open are those whose input is awaited, and their
    /// pieces are counted.
    pub open spec fn well_formed(self) -> bool {
        &&& self.tool_blocks == self.pending.dom()
        &&& self.delta_counts.dom() == self.pending.dom()
    }
}

/// What a step makes of the state, and what it shows.
pub struct Step {
    pub state: StreamView,
    pub shows: Seq<ShowView>,
}

/// The input with which a tool call opens. A stream opens it with the empty
/// object and sends the input after it, so that object stands for no input.
pub open spec fn opening_input(input: Seq<char>, streaming: bool) -> Seq<char> {
    if streaming && input == "{}"@ {
        Seq::empty()
    } else {
        input
    }
}

/// The part of the state that the content of a block reaches.
pub struct SinkView {
    pub events: Seq<EventView>,
    pub pending: Map<u32, PendingView>,
    pub thinking_shown: bool,
}

/// What the content of the block at `index` makes of the sink.
pub open spec fn push_block(
    sink: SinkView,
    block: OutputContentBlock,
    index: u32,
    streaming: bool,
) -> SinkView {
    match block {
        OutputContentBlock::Text { text } => if text@.len() == 0 {
            sink
        } else {
            SinkView { events: sink.events.push(EventView::TextDelta(text@)), ..sink }
        },
        OutputContentBlock::ToolUse { id, name, input } => SinkView {
            pending: sink.pending.insert(
                index,
                PendingView { id: id@, name: name@, input: opening_input(input@, streaming) },
            ),
            ..sink
        },
        OutputContentBlock::Thinking { .. } => SinkView { thinking_shown: true, ..sink },
        OutputContentBlock::RedactedThinking { .. } => SinkView { thinking_shown: true, ..sink },
    }
}

/// What is shown of a block as it arrives.
pub open spec fn shown_of_block(block: OutputContentBlock) -> Option<ShowView> {
    match block {
        OutputContentBlock::Text { text } => if text@.len() == 0 {
            None
        } else {
            Some(ShowView::MarkdownBlock(text@))
        },
        OutputContentBlock::ToolUse { .. } => None,
        OutputContentBlock::Thinking { thinking, .. } => Some(
            ShowView::Plain(thinking_summary(Some(thinking@.len()), false)),
        ),
        OutputContentBlock::RedactedThinking { .. } => Some(
            ShowView::Plain(thinking_summary(None, true)),
        ),
    }
}

pub open spec fn shown(show: Option<ShowView>) -> Seq<ShowView> {
    match show {
        Some(show) => seq![show],
        None => Seq::empty(),
    }
}

/// A block of a stream opens at `index`: a tool call is kept track of, and the
/// content of the block is taken in.
pub open spec fn open_block(state: StreamView, block: OutputContentBlock, index: u32) -> StreamView {
    let sink = push_block(
        SinkView {
            events: state.events,
            pending: state.pending,
            thinking_shown: state.thinking_shown,
        },
        block,
        index,
        true,
    );
    StreamView {
        events: sink.events,
        pending: sink.pending,
        thinking_shown: sink.thinking_shown,
        tool_blocks: if is_tool_use(block) {
            state.tool_blocks.insert(index)
        } else {
            state.tool_blocks
        },
        delta_counts: if is_tool_use(block) {
            state.delta_counts.insert(index, 0)
        } else {
            state.delta_counts
        },
        ..state
    }
}

/// The blocks of `content` open one after the other, at indices from zero on.
pub open spec fn open_blocks(state: StreamView, content: Seq<OutputContentBlock>) -> Step
    decreases content.len(),
{
    if content.len() == 0 {
        Step { state, shows: Seq::empty() }
    } else {
        let before = open_blocks(state, content.drop_last());
        Step {
            state: open_block(before.state, content.last(), (content.len() - 1) as u32),
            shows: before.shows + shown(shown_of_block(content.last())),
        }
    }
}

/// One more piece.
pub open spec fn counted(n: usize) -> usize {
    if n < usize::MAX {
        (n + 1) as usize
    } else {
        n
    }
}

/// A piece of a block arrives.
pub open spec fn take_delta(state: StreamView, index: u32, delta: ContentBlockDelta) -> Step {
    match delta {
        ContentBlockDelta::TextDelta { text } => if text@.len() == 0 {
            Step { state, shows: Seq::empty() }
        } else {
            Step {
                state: StreamView { events: state.events.push(EventView::TextDelta(text@)), ..state },
                shows: seq![ShowView::MarkdownPiece(text@)],
            }
        },
        ContentBlockDelta::InputJsonDelta { partial_json } => if state.pending.contains_key(index) {
            let tool = state.pending[index];
            Step {
                state: StreamView {
                    pending: state.pending.insert(
                        index,
                        PendingView { input: tool.input + partial_json@, ..tool },
                    ),
                    delta_counts: state.delta_counts.insert(
                        index,
                        if state.delta_counts.contains_key(index) {
                            counted(state.delta_counts[index])
                        } else {
                            1
                        },
                    ),
                    ..state
                },
                shows: Seq::empty(),
            }
        } else {
            Step { state, shows: Seq::empty() }
        },
        ContentBlockDelta::ThinkingDelta { .. } => if state.thinking_shown {
            Step { state, shows: Seq::empty() }
        } else {
            Step {
                state: StreamView { thinking_shown: true, ..state },
                shows: seq![ShowView::Plain(thinking_summary(None, false))],
            }
        },
        ContentBlockDelta::SignatureDelta { .. } => Step { state, shows: Seq::empty() },
    }
}

/// The state once the block at `index` is closed, before its tool call, if it
/// was one, is passed on.
pub open spec fn block_closed(state: StreamView, index: u32) -> StreamView {
    if state.pending.contains_key(index) || state.tool_blocks.contains(index) {
        StreamView {
            pending: state.pending.remove(index),
            tool_blocks: state.tool_blocks.remove(index),
            delta_counts: state.delta_counts.remove(index),
            thinking_shown: false,
            ..state
        }
    } else {
        StreamView { thinking_shown: false, ..state }
    }
}

/// The tool call that the block at `index` makes, with its input complete.
pub open spec fn closed_tool(state: StreamView, index: u32) -> Option<PendingView> {
    if state.pending.contains_key(index) {
        let tool = state.pending[index];
        Some(PendingView { input: normalized_input(tool.input), ..tool })
    } else {
        None
    }
}

/// A tool call is passed on.
pub open spec fn pass_tool(state: StreamView, tool: PendingView) -> StreamView {
    StreamView {
        events: state.events.push(
            EventView::ToolUse { id: tool.id, name: tool.name, input: tool.input },
        ),
        ..state
    }
}

/// Why a streamed response is asked for again without streaming.
pub open spec fn invalid_input_reason(tool: PendingView, error: Seq<char>) -> Seq<char> {
    "invalid_streamed_tool_input_json tool_id="@ + tool.id + " tool_name="@ + tool.name + " error="@
        + error
}

/// What comes of one event: the response goes on, or it is asked for again
/// without streaming.
pub enum AdvanceView {
    Continue(Step),
    Fallback { shows: Seq<ShowView>, reason: Seq<char> },
}

/// A closed tool call is passed on where its input is JSON.
pub open spec fn settle(
    state: StreamView,
    tool: PendingView,
    verdict: Result<(), Seq<char>>,
) -> AdvanceView {
    match verdict {
        Ok(_) => AdvanceView::Continue(
            Step {
                state: pass_tool(state, tool),
                shows: seq![
                    ShowView::MarkdownEnd,
                    ShowView::ToolCall { name: tool.name, input: tool.input },
                ],
            },
        ),
        Err(error) => AdvanceView::Fallback {
            shows: seq![ShowView::MarkdownEnd],
            reason: invalid_input_reason(tool, error),
        },
    }
}

/// What an event makes of the state where it does not close a block.
pub open spec fn advance_open(state: StreamView, event: StreamEvent) -> Step {
    match event {
        StreamEvent::MessageStart { content } => open_blocks(state, content@),
        StreamEvent::ContentBlockStart { index, content_block } => Step {
            state: open_block(state, content_block, index),
            shows: shown(shown_of_block(content_block)),
        },
        StreamEvent::ContentBlockDelta { index, delta } => take_delta(state, index, delta),
        StreamEvent::ContentBlockStop { index } => Step { state, shows: Seq::empty() },
        StreamEvent::MessageDelta { usage, .. } => Step {
            state: StreamView { events: state.events.push(EventView::Usage(usage)), ..state },
            shows: Seq::empty(),
        },
        StreamEvent::MessageStop => Step {
            state: StreamView {
                events: state.events.push(EventView::MessageStop),
                saw_stop: true,
                ..state
            },
            shows: seq![ShowView::MarkdownEnd],
        },
    }
}

/// What an event of a stream makes of the state of the interactive client.
pub open spec fn advance(state: StreamView, event: StreamEvent) -> AdvanceView {
    let state = StreamView { received_any_event: true, ..state };
    match event {
        StreamEvent::ContentBlockStop { index } => {
            let closed = block_closed(state, index);
            match closed_tool(state, index) {
                Some(tool) => settle(closed, tool, verdict(json::json_parse(tool.input))),
                None => AdvanceView::Continue(
                    Step { state: closed, shows: seq![ShowView::MarkdownEnd] },
                ),
            }
        },
        _ => AdvanceView::Continue(advance_open(state, event)),
    }
}

/// What an event of a stream makes of the state of a sub-agent, which shows
/// nothing and passes every closed tool call on.
pub open spec fn advance_agent(state: StreamView, event: StreamEvent) -> StreamView {
    let state = StreamView { received_any_event: true, ..state };
    match event {
        StreamEvent::ContentBlockStop { index } => {
            let closed = block_closed(state, index);
            match closed_tool(state, index) {
                Some(tool) => pass_tool(closed, tool),
                None => closed,
            }
        },
        _ => advance_open(state, event).state,
    }
}

// ---------------------------------------------------------------------------
// The machine
// ---------------------------------------------------------------------------

proof fn lemma_events_push(events: Seq<AssistantEvent>, event: AssistantEvent)
    ensures
        event_views(events.push(event)) == event_views(events).push(event.view()),
{
    assert(event_views(events.push(event)) =~= event_views(events).push(event.view()));
}

proof fn lemma_pending_insert(pending: Map<u32, PendingTool>, index: u32, tool: PendingTool)
    ensures
        pending_view(pending.insert(index, tool)) == pending_view(pending).insert(index, tool.view()),
{
    assert(pending_view(pending.insert(index, tool)) =~= pending_view(pending).insert(
        index,
        tool.view(),
    ));
}

proof fn lemma_pending_remove(pending: Map<u32, PendingTool>, index: u32)
    ensures
        pending_view(pending.remove(index)) == pending_view(pending).remove(index),
{
    assert(pending_view(pending.remove(index)) =~= pending_view(pending).remove(index));
}

/// `{}` holds something, so normalizing twice is normalizing once.
pub proof fn law_normalizing_input_is_idempotent(input: Seq<char>)
    ensures
        normalized_input(normalized_input(input)) == normalized_input(input),
{
    reveal_strlit("{}");
    assert(!text::is_whitespace("{}"@[0]));
}

/// Takes the content of a block in; what is to be shown of it is returned.
pub fn push_output_block(
    block: OutputContentBlock,
    block_index: u32,
    events: &mut Vec<AssistantEvent>,
    pending_tools: &mut BTreeMap<u32, PendingTool>,
    streaming_tool_input: bool,
    block_has_thinking_summary: &mut bool,
) -> (r: Option<Show>)
    ensures
        ({
            let sink = push_block(
                SinkView {
                    events: event_views(old(events)@),
                    pending: pending_view(old(pending_tools)@),
                    thinking_shown: *old(block_has_thinking_summary),
                },
                block,
                block_index,
                streaming_tool_input,
            );
            &&& event_views(final(events)@) == sink.events
            &&& pending_view(final(pending_tools)@) == sink.pending
            &&& *final(block_has_thinking_summary) == sink.thinking_shown
        }),
        (match r {
            Some(show) => Some(show.view()),
            None => None,
        }) == shown_of_block(block),
{
    match block {
        OutputContentBlock::Text { text } => {
            if text.as_str().is_empty() {
                None
            } else {
                let show = Show::MarkdownBlock(text.clone());
                let event = AssistantEvent::TextDelta(text);
                proof {
                    lemma_events_push(events@, event);
                }
                events.push(event);
                Some(show)
            }
        },
        OutputContentBlock::ToolUse { id, name, input } => {
            let initial_input = if streaming_tool_input && text::str_eq(input.as_str(), "{}") {
                String::new()
            } else {
                input
            };
            let tool = PendingTool { id, name, input: initial_input };
            proof {
                lemma_pending_insert(pending_tools@, block_index, tool);
            }
            pending_tools.insert(block_index, tool);
            None
        },
        OutputContentBlock::Thinking { thinking, .. } => {
            *block_has_thinking_summary = true;
            let count: usize = thinking.as_str().unicode_len();
            Some(Show::Plain(render_thinking_block_summary(Some(count), false)))
        },
        OutputContentBlock::RedactedThinking { .. } => {
            *block_has_thinking_summary = true;
            Some(Show::Plain(render_thinking_block_summary(None, true)))
        },
    }
}

/// The indices of tool calls once a block has started.
pub open spec fn tool_indices(known: Set<u32>, block: OutputContentBlock, index: u32) -> Set<u32> {
    if is_tool_use(block) {
        known.insert(index)
    } else {
        known
    }
}

/// Keeps track of a block that opens a tool call.
pub fn track_tool_block_index(
    block: &OutputContentBlock,
    block_index: u32,
    tool_block_indices: &mut BTreeSet<u32>,
)
    ensures
        final(tool_block_indices)@ == tool_indices(old(tool_block_indices)@, *block, block_index),
{
    match block {
        OutputContentBlock::ToolUse { .. } => {
            tool_block_indices.insert(block_index);
        },
        _ => {},
    }
}

/// Whether a block that closes without an open tool call had opened one; the
/// block is no longer kept track of.
pub fn should_log_tool_stop_without_start(
    tool_block_indices: &mut BTreeSet<u32>,
    block_index: u32,
) -> (r: bool)
    ensures
        r == old(tool_block_indices)@.contains(block_index),
        final(tool_block_indices)@ == old(tool_block_indices)@.remove(block_index),
{
    tool_block_indices.remove(&block_index)
}

/// What comes of one event.
#[derive(Debug, PartialEq, Eq)]
pub enum Advance {
    Continue(Vec<Show>),
    Fallback { shows: Vec<Show>, reason: String },
}

impl Advance {
    /// Whether `self`, together with the state after it, is what `model` says.
    pub open spec fn realizes(self, state: StreamView, model: AdvanceView) -> bool {
        match (self, model) {
            (Advance::Continue(shows), AdvanceView::Continue(step)) => {
                &&& state == step.state
                &&& show_views(shows@) == step.shows
            },
            (
                Advance::Fallback { shows, reason },
                AdvanceView::Fallback { shows: model_shows, reason: model_reason },
            ) => {
                &&& show_views(shows@) == model_shows
                &&& reason@ == model_reason
            },
            _ => false,
        }
    }
}

proof fn lemma_shows_push(shows: Seq<Show>, show: Show)
    ensures
        show_views(shows.push(show)) == show_views(shows).push(show.view()),
{
    assert(show_views(shows.push(show)) =~= show_views(shows).push(show.view()));
}

fn no_shows() -> (r: Vec<Show>)
    ensures
        show_views(r@) == Seq::<ShowView>::empty(),
{
    let r: Vec<Show> = Vec::new();
    assert(show_views(r@) =~= Seq::<ShowView>::empty());
    r
}

fn one_show(show: Show) -> (r: Vec<Show>)
    ensures
        show_views(r@) == seq![show.view()],
{
    let mut r: Vec<Show> = Vec::new();
    r.push(show);
    assert(show_views(r@) =~= seq![show.view()]);
    r
}

fn push_show(shows: &mut Vec<Show>, show: Option<Show>)
    ensures
        show_views(final(shows)@) == show_views(old(shows)@) + shown(
            match show {
                Some(show) => Some(show.view()),
                None => None,
            },
        ),
{
    match show {
        Some(show) => {
            shows.push(show);
        },
        None => {},
    }
    assert(show_views(shows@) =~= show_views(old(shows)@) + shown(
        match show {
            Some(show) => Some(show.view()),
            None => None,
        },
    ));
}

impl StreamState {
    /// The state before anything has arrived.
    pub fn new() -> (r: StreamState)
        ensures
            r.view() == StreamView::initial(),
    {
        let r = StreamState {
            events: Vec::new(),
            pending_tools: BTreeMap::new(),
            tool_block_indices: BTreeSet::new(),
            tool_input_delta_counts: BTreeMap::new(),
            block_has_thinking_summary: false,
            saw_stop: false,
            received_any_event: false,
        };
        assert(event_views(r.events@) =~= Seq::empty());
        assert(pending_view(r.pending_tools@) =~= Map::empty());
        r
    }

    fn push_event(&mut self, event: AssistantEvent)
        ensures
            final(self).view() == (StreamView {
                events: old(self).view().events.push(event.view()),
                ..old(self).view()
            }),
    {
        proof {
            lemma_events_push(self.events@, event);
        }
        self.events.push(event);
    }

    fn open_block(&mut self, block: OutputContentBlock, index: u32) -> (r: Option<Show>)
        ensures
            final(self).view() == open_block(old(self).view(), block, index),
            (match r {
                Some(show) => Some(show.view()),
                None => None,
            }) == shown_of_block(block),
    {
        track_tool_block_index(&block, index, &mut self.tool_block_indices);
        match &block {
            OutputContentBlock::ToolUse { .. } => {
                self.tool_input_delta_counts.insert(index, 0);
            },
            _ => {},
        }
        push_output_block(
            block,
            index,
            &mut self.events,
            &mut self.pending_tools,
            true,
            &mut self.block_has_thinking_summary,
        )
    }

    fn open_blocks(&mut self, content: Vec<OutputContentBlock>) -> (r: Vec<Show>)
        requires
            content@.len() <= 0x1_0000_0000,
        ensures
            final(self).view() == open_blocks(old(self).view(), content@).state,
            show_views(r@) == open_blocks(old(self).view(), content@).shows,
    {
        let mut shows = no_shows();
        let ghost all = content@;
        let ghost start = self.view();
        assert(all.take(0) =~= Seq::empty());
        let mut next: u64 = 0;
        for block in it: content
            invariant
                it.seq() == all,
                next == it.index(),
                all.len() <= 0x1_0000_0000,
                self.view() == open_blocks(start, all.take(it.index())).state,
                show_views(shows@) == open_blocks(start, all.take(it.index())).shows,
        {
            proof {
                assert(all.take(it.index() + 1).drop_last() =~= all.take(it.index()));
                assert(all.take(it.index() + 1).last() == block);
            }
            let show = self.open_block(block, next as u32);
            push_show(&mut shows, show);
            next += 1;
        }
        assert(all.take(all.len() as int) =~= all);
        shows
    }

    fn take_delta(&mut self, index: u32, delta: ContentBlockDelta) -> (r: Vec<Show>)
        ensures
            final(self).view() == take_delta(old(self).view(), index, delta).state,
            show_views(r@) == take_delta(old(self).view(), index, delta).shows,
    {
        match delta {
            ContentBlockDelta::TextDelta { text } => {
                if text.as_str().is_empty() {
                    no_shows()
                } else {
                    let show = Show::MarkdownPiece(text.clone());
                    self.push_event(AssistantEvent::TextDelta(text));
                    one_show(show)
                }
            },
            ContentBlockDelta::InputJsonDelta { partial_json } => {
                let ghost before = self.pending_tools@;
                match self.pending_tools.remove(&index) {
                    Some(tool) => {
                        let mut tool = tool;
                        let ghost old_tool = tool;
                        tool.input.append(partial_json.as_str());
                        self.pending_tools.insert(index, tool);
                        proof {
                            assert(pending_view(self.pending_tools@) =~= pending_view(before).insert(
                                index,
                                PendingView {
                                    input: old_tool.view().input + partial_json@,
                                    ..old_tool.view()
                                },
                            ));
                        }
                        let count: usize = match self.tool_input_delta_counts.get(&index) {
                            Some(count) => if *count < usize::MAX {
                                *count + 1
                            } else {
                                *count
                            },
                            None => 1,
                        };
                        self.tool_input_delta_counts.insert(index, count);
                        no_shows()
                    },
                    None => {
                        assert(self.pending_tools@ =~= before);
                        no_shows()
                    },
                }
            },
            ContentBlockDelta::ThinkingDelta { .. } => {
                if self.block_has_thinking_summary {
                    no_shows()
                } else {
                    self.block_has_thinking_summary = true;
                    one_show(Show::Plain(render_thinking_block_summary(None, false)))
                }
            },
            ContentBlockDelta::SignatureDelta { .. } => no_shows(),
        }
    }

    /// Closes the block at `index`; the tool call that it made is returned with
    /// its input complete.
    fn close_block(&mut self, index: u32) -> (r: Option<PendingTool>)
        ensures
            final(self).view() == block_closed(old(self).view(), index),
            (match r {
                Some(tool) => Some(tool.view()),
                None => None,
            }) == closed_tool(old(self).view(), index),
    {
        self.block_has_thinking_summary = false;
        let ghost before = self.view();
        proof {
            lemma_pending_remove(self.pending_tools@, index);
        }
        match self.pending_tools.remove(&index) {
            Some(tool) => {
                self.tool_block_indices.remove(&index);
                self.tool_input_delta_counts.remove(&index);
                Some(
                    PendingTool {
                        id: tool.id,
                        name: tool.name,
                        input: normalize_tool_input_string(tool.input),
                    },
                )
            },
            None => {
                proof {
                    assert(before.pending.remove(index) =~= before.pending);
                }
                if should_log_tool_stop_without_start(&mut self.tool_block_indices, index) {
                    self.tool_input_delta_counts.remove(&index);
                } else {
                    assert(self.tool_block_indices@ =~= before.tool_blocks);
                }
                None
            },
        }
    }

    /// Passes a closed tool call on where its input was found to be JSON; asks
    /// for the whole response again where not.
    pub fn settle_tool(&mut self, tool: PendingTool, verdict: Result<(), String>) -> (r: Advance)
        ensures
            r.realizes(
                final(self).view(),
                settle(old(self).view(), tool.view(), verdict_view(verdict)),
            ),
            verdict is Err ==> final(self).view() == old(self).view(),
    {
        match verdict {
            Ok(_) => {
                let mut shows = one_show(Show::MarkdownEnd);
                let call = Show::ToolCall { name: tool.name.clone(), input: tool.input.clone() };
                proof {
                    lemma_shows_push(shows@, call);
                }
                shows.push(call);
                assert(show_views(shows@) =~= seq![
                    ShowView::MarkdownEnd,
                    ShowView::ToolCall { name: tool.view().name, input: tool.view().input },
                ]);
                self.push_event(
                    AssistantEvent::ToolUse { id: tool.id, name: tool.name, input: tool.input },
                );
                Advance::Continue(shows)
            },
            Err(error) => {
                let mut reason = "invalid_streamed_tool_input_json tool_id=".to_string();
                reason.append(tool.id.as_str());
                reason.append(" tool_name=");
                reason.append(tool.name.as_str());
                reason.append(" error=");
                reason.append(error.as_str());
                Advance::Fallback { shows: one_show(Show::MarkdownEnd), reason }
            },
        }
    }

    fn advance_open(&mut self, event: StreamEvent) -> (r: Vec<Show>)
        requires
            event matches StreamEvent::MessageStart { content } ==> content@.len() <= 0x1_0000_0000,
        ensures
            final(self).view() == advance_open(old(self).view(), event).state,
            show_views(r@) == advance_open(old(self).view(), event).shows,
    {
        match event {
            StreamEvent::MessageStart { content } => self.open_blocks(content),
            StreamEvent::ContentBlockStart { index, content_block } => {
                let show = self.open_block(content_block, index);
                let mut shows = no_shows();
                push_show(&mut shows, show);
                assert(show_views(shows@) =~= shown(shown_of_block(content_block)));
                shows
            },
            StreamEvent::ContentBlockDelta { index, delta } => self.take_delta(index, delta),
            StreamEvent::ContentBlockStop { .. } => no_shows(),
            StreamEvent::MessageDelta { usage, .. } => {
                self.push_event(AssistantEvent::Usage(usage));
                no_shows()
            },
            StreamEvent::MessageStop => {
                self.saw_stop = true;
                self.push_event(AssistantEvent::MessageStop);
                one_show(Show::MarkdownEnd)
            },
        }
    }

    /// Takes one event of a stream in, as the interactive client does.
    pub fn on_event(&mut self, event: StreamEvent) -> (r: Advance)
        requires
            event matches StreamEvent::MessageStart { content } ==> content@.len() <= 0x1_0000_0000,
        ensures
            r.realizes(final(self).view(), advance(old(self).view(), event)),
    {
        self.received_any_event = true;
        match event {
            StreamEvent::ContentBlockStop { index } => {
                let ghost before = self.view();
                match self.close_block(index) {
                    Some(tool) => {
                        proof {
                            law_normalizing_input_is_idempotent(before.pending[index].input);
                        }
                        let verdict = validate_tool_input_json(tool.input.as_str());
                        self.settle_tool(tool, verdict)
                    },
                    None => Advance::Continue(one_show(Show::MarkdownEnd)),
                }
            },
            event => Advance::Continue(self.advance_open(event)),
        }
    }

    /// Takes one event of a stream in, as a sub-agent does.
    pub fn on_agent_event(&mut self, event: StreamEvent)
        requires
            event matches StreamEvent::MessageStart { content } ==> content@.len() <= 0x1_0000_0000,
        ensures
            final(self).view() == advance_agent(old(self).view(), event),
    {
        self.received_any_event = true;
        match event {
            StreamEvent::ContentBlockStop { index } => {
                match self.close_block(index) {
                    Some(tool) => {
                        self.push_event(
                            AssistantEvent::ToolUse {
                                id: tool.id,
                                name: tool.name,
                                input: tool.input,
                            },
                        );
                    },
                    None => {},
                }
            },
            event => {
                self.advance_open(event);
            },
        }
    }
}

// ---------------------------------------------------------------------------
// The end of a response
// ---------------------------------------------------------------------------

/// Whether an event carries text or a tool call.
pub open spec fn is_content(event: EventView) -> bool {
    match event {
        EventView::TextDelta(text) => text.len() > 0,
        EventView::ToolUse { .. } => true,
        _ => false,
    }
}

pub open spec fn has_content(events: Seq<EventView>) -> bool {
    exists|i: int| 0 <= i < events.len() && is_content(#[trigger] events[i])
}

pub open spec fn has_stop(events: Seq<EventView>) -> bool {
    exists|i: int| 0 <= i < events.len() && (#[trigger] events[i]) is MessageStop
}

/// The events with what the prompt cache noticed added to them.
pub open spec fn with_cache_record(
    events: Seq<EventView>,
    record: Option<PromptCacheRecord>,
) -> Seq<EventView> {
    match record {
        Some(record) => match record.cache_break {
            Some(event) => events.push(EventView::PromptCache(event)),
            None => events,
        },
        None => events,
    }
}

/// The events of a stream that has ended. A stream that brought content but no
/// stop counts as stopped.
pub open spec fn ended(state: StreamView, record: Option<PromptCacheRecord>) -> Seq<EventView> {
    let events = with_cache_record(state.events, record);
    if !state.saw_stop && has_content(events) {
        events.push(EventView::MessageStop)
    } else {
        events
    }
}

/// What the end of a stream comes to.
#[derive(Debug, PartialEq, Eq)]
pub enum StreamEnd {
    Complete(Vec<AssistantEvent>),
    /// The response is asked for again without streaming.
    Fallback { reason: String },
}

pub fn prompt_cache_record_to_runtime_event(record: PromptCacheRecord) -> (r: Option<
    PromptCacheEvent,
>)
    ensures
        r == record.cache_break,
{
    record.cache_break
}

/// Adds what the prompt cache noticed.
pub fn push_prompt_cache_record(
    record: Option<PromptCacheRecord>,
    events: &mut Vec<AssistantEvent>,
)
    ensures
        event_views(final(events)@) == with_cache_record(event_views(old(events)@), record),
{
    match record {
        Some(record) => match prompt_cache_record_to_runtime_event(record) {
            Some(event) => {
                let event = AssistantEvent::PromptCache(event);
                proof {
                    lemma_events_push(events@, event);
                }
                events.push(event);
            },
            None => {},
        },
        None => {},
    }
}

fn any_content(events: &Vec<AssistantEvent>) -> (r: bool)
    ensures
        r == has_content(event_views(events@)),
{
    let mut i: usize = 0;
    while i < events.len()
        invariant
            i <= events@.len(),
            forall|j: int| 0 <= j < i ==> !is_content(#[trigger] event_views(events@)[j]),
        decreases events.len() - i,
    {
        assert(event_views(events@)[i as int] == events@[i as int].view());
        match &events[i] {
            AssistantEvent::TextDelta(text) => {
                if !text.as_str().is_empty() {
                    return true;
                }
            },
            AssistantEvent::ToolUse { .. } => {
                return true;
            },
            _ => {},
        }
        i += 1;
    }
    false
}

fn any_stop(events: &Vec<AssistantEvent>) -> (r: bool)
    ensures
        r == has_stop(event_views(events@)),
{
    let mut i: usize = 0;
    while i < events.len()
        invariant
            i <= events@.len(),
            forall|j: int| 0 <= j < i ==> !((#[trigger] event_views(events@)[j]) is MessageStop),
        decreases events.len() - i,
    {
        assert(event_views(events@)[i as int] == events@[i as int].view());
        match &events[i] {
            AssistantEvent::MessageStop => {
                return true;
            },
            _ => {},
        }
        i += 1;
    }
    false
}

impl StreamState {
    /// Why a stream is made up for by a whole response.
    pub open spec fn unfinished() -> Seq<char> {
        "stream_ended_without_message_stop"@
    }

    /// What a stream that has ended comes to.
    pub fn finish(self, record: Option<PromptCacheRecord>) -> (r: StreamEnd)
        ensures
            match r {
                StreamEnd::Complete(events) => {
                    &&& event_views(events@) == ended(self.view(), record)
                    &&& has_stop(ended(self.view(), record))
                },
                StreamEnd::Fallback { reason } => {
                    &&& reason@ == Self::unfinished()
                    &&& !has_stop(ended(self.view(), record))
                },
            },
    {
        let saw_stop = self.saw_stop;
        let mut events = self.events;
        push_prompt_cache_record(record, &mut events);
        if !saw_stop && any_content(&events) {
            proof {
                lemma_events_push(events@, AssistantEvent::MessageStop);
            }
            events.push(AssistantEvent::MessageStop);
        }
        if any_stop(&events) {
            StreamEnd::Complete(events)
        } else {
            StreamEnd::Fallback { reason: "stream_ended_without_message_stop".to_string() }
        }
    }
}

/// The event that a block of a response that was not streamed makes.
pub open spec fn event_of_block(block: OutputContentBlock) -> Option<EventView> {
    match block {
        OutputContentBlock::Text { text } => if text@.len() == 0 {
            None
        } else {
            Some(EventView::TextDelta(text@))
        },
        OutputContentBlock::ToolUse { id, name, input } => Some(
            EventView::ToolUse { id: id@, name: name@, input: input@ },
        ),
        OutputContentBlock::Thinking { .. } => None,
        OutputContentBlock::RedactedThinking { .. } => None,
    }
}

/// The events that the blocks of a response make, in order.
pub open spec fn events_of_blocks(content: Seq<OutputContentBlock>) -> Seq<EventView>
    decreases content.len(),
{
    if content.len() == 0 {
        Seq::empty()
    } else {
        let before = events_of_blocks(content.drop_last());
        match event_of_block(content.last()) {
            Some(event) => before.push(event),
            None => before,
        }
    }
}

/// What is shown of the blocks of a response, in order.
pub open spec fn shown_of_blocks(content: Seq<OutputContentBlock>) -> Seq<ShowView>
    decreases content.len(),
{
    if content.len() == 0 {
        Seq::empty()
    } else {
        shown_of_blocks(content.drop_last()) + shown(shown_of_block(content.last()))
    }
}

/// The events of a response that was not streamed: those of its blocks, then the
/// tokens that it used, then its end.
pub open spec fn events_of_response(response: MessageResponse) -> Seq<EventView> {
    events_of_blocks(response.content@).push(EventView::Usage(response.usage)).push(
        EventView::MessageStop,
    )
}

/// The events of a response that was not streamed, and what is shown of it.
pub fn response_to_events(response: MessageResponse) -> (r: (Vec<AssistantEvent>, Vec<Show>))
    requires
        response.content@.len() <= 0x1_0000_0000,
    ensures
        event_views(r.0@) == events_of_response(response),
        show_views(r.1@) == shown_of_blocks(response.content@),
{
    let mut events: Vec<AssistantEvent> = Vec::new();
    let mut shows = no_shows();
    let mut pending_tools: BTreeMap<u32, PendingTool> = BTreeMap::new();
    let ghost all = response.content@;
    assert(all.take(0) =~= Seq::empty());
    assert(event_views(events@) =~= Seq::empty());
    assert(pending_view(pending_tools@) =~= Map::empty());
    let mut next: u64 = 0;
    for block in it: response.content
        invariant
            it.seq() == all,
            next == it.index(),
            all.len() <= 0x1_0000_0000,
            event_views(events@) == events_of_blocks(all.take(it.index())),
            show_views(shows@) == shown_of_blocks(all.take(it.index())),
            pending_view(pending_tools@) == Map::<u32, PendingView>::empty(),
    {
        proof {
            assert(all.take(it.index() + 1).drop_last() =~= all.take(it.index()));
            assert(all.take(it.index() + 1).last() == block);
        }
        let mut block_has_thinking_summary = false;
        let index: u32 = next as u32;
        let show = push_output_block(
            block,
            index,
            &mut events,
            &mut pending_tools,
            false,
            &mut block_has_thinking_summary,
        );
        push_show(&mut shows, show);
        let ghost pending = pending_tools@;
        proof {
            lemma_pending_remove(pending, index);
            assert(pending_view(pending).remove(index) =~= Map::<u32, PendingView>::empty());
            assert(pending_view(pending).contains_key(index) <==> pending.contains_key(index));
        }
        match pending_tools.remove(&index) {
            Some(tool) => {
                let event = AssistantEvent::ToolUse {
                    id: tool.id,
                    name: tool.name,
                    input: tool.input,
                };
                proof {
                    assert(pending_view(pending)[index] == tool.view());
                    lemma_events_push(events@, event);
                }
                events.push(event);
            },
            None => {},
        }
        next += 1;
    }
    assert(all.take(all.len() as int) =~= all);
    let usage = AssistantEvent::Usage(response.usage);
    proof {
        lemma_events_push(events@, usage);
        lemma_events_push(events@.push(usage), AssistantEvent::MessageStop);
    }
    events.push(usage);
    events.push(AssistantEvent::MessageStop);
    (events, shows)
}

/// The events of a response that was asked for again without streaming, and
/// what is shown of it.
pub fn non_streaming_fallback(response: MessageResponse, record: Option<PromptCacheRecord>) -> (r: (
    Vec<AssistantEvent>,
    Vec<Show>,
))
    requires
        response.content@.len() <= 0x1_0000_0000,
    ensures
        event_views(r.0@) == with_cache_record(events_of_response(response), record),
        show_views(r.1@) == shown_of_blocks(response.content@),
{
    let (events, shows) = response_to_events(response);
    let mut events = events;
    push_prompt_cache_record(record, &mut events);
    (events, shows)
}

} // verus!
