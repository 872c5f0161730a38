//! What holds of every streamed response.

use vstd::prelude::*;

use crate::json;
use crate::stream::{
    self, AdvanceView, ContentBlockDelta, EventView, MessageResponse, OutputContentBlock,
    PendingView, PromptCacheRecord, ShowView, StreamEvent, StreamView, TokenUsage,
};

verus! {

// ---------------------------------------------------------------------------
// Invariants
// ---------------------------------------------------------------------------

/// The invariant of a stream: the open tool calls are those whose input is
/// awaited, and a stop was seen exactly where one was passed on.
pub open spec fn sound(state: StreamView) -> bool {
    &&& state.well_formed()
    &&& state.saw_stop == stream::has_stop(state.events)
}

proof fn lemma_push_keeps_stop(events: Seq<EventView>, event: EventView)
    ensures
        stream::has_stop(events.push(event)) == (stream::has_stop(events) || event is MessageStop),
{
    let pushed = events.push(event);
    if stream::has_stop(events) {
        let i = choose|i: int| 0 <= i < events.len() && (#[trigger] events[i]) is MessageStop;
        assert(pushed[i] is MessageStop);
    }
    if event is MessageStop {
        assert(pushed[events.len() as int] is MessageStop);
    }
    if stream::has_stop(pushed) {
        let i = choose|i: int| 0 <= i < pushed.len() && (#[trigger] pushed[i]) is MessageStop;
        if i < events.len() {
            assert(events[i] is MessageStop);
        }
    }
}

proof fn lemma_open_block_sound(state: StreamView, block: OutputContentBlock, index: u32)
    requires
        sound(state),
    ensures
        sound(stream::open_block(state, block, index)),
{
    let next = stream::open_block(state, block, index);
    match block {
        OutputContentBlock::Text { text } => {
            lemma_push_keeps_stop(state.events, EventView::TextDelta(text@));
        },
        OutputContentBlock::ToolUse { .. } => {
            assert(next.tool_blocks =~= next.pending.dom());
            assert(next.delta_counts.dom() =~= next.pending.dom());
        },
        _ => {},
    }
}

proof fn lemma_open_blocks_sound(state: StreamView, content: Seq<OutputContentBlock>)
    requires
        sound(state),
    ensures
        sound(stream::open_blocks(state, content).state),
    decreases content.len(),
{
    if content.len() > 0 {
        lemma_open_blocks_sound(state, content.drop_last());
        lemma_open_block_sound(
            stream::open_blocks(state, content.drop_last()).state,
            content.last(),
            (content.len() - 1) as u32,
        );
    }
}

proof fn lemma_advance_open_sound(state: StreamView, event: StreamEvent)
    requires
        sound(state),
    ensures
        sound(stream::advance_open(state, event).state),
{
    match event {
        StreamEvent::MessageStart { content } => {
            lemma_open_blocks_sound(state, content@);
        },
        StreamEvent::ContentBlockStart { index, content_block } => {
            lemma_open_block_sound(state, content_block, index);
        },
        StreamEvent::ContentBlockDelta { index, delta } => {
            let next = stream::take_delta(state, index, delta).state;
            match delta {
                ContentBlockDelta::TextDelta { text } => {
                    lemma_push_keeps_stop(state.events, EventView::TextDelta(text@));
                },
                ContentBlockDelta::InputJsonDelta { .. } => {
                    assert(next.pending.dom() =~= state.pending.dom());
                    assert(next.delta_counts.dom() =~= state.delta_counts.dom());
                },
                _ => {},
            }
        },
        StreamEvent::ContentBlockStop { .. } => {},
        StreamEvent::MessageDelta { usage, .. } => {
            lemma_push_keeps_stop(state.events, EventView::Usage(usage));
        },
        StreamEvent::MessageStop => {
            lemma_push_keeps_stop(state.events, EventView::MessageStop);
        },
    }
}

proof fn lemma_block_closed_sound(state: StreamView, index: u32)
    requires
        sound(state),
    ensures
        sound(stream::block_closed(state, index)),
{
    let next = stream::block_closed(state, index);
    assert(next.tool_blocks =~= next.pending.dom());
    assert(next.delta_counts.dom() =~= next.pending.dom());
}

/// A stream starts out sound.
pub proof fn law_initial_state_is_sound()
    ensures
        sound(StreamView::initial()),
{
    let state = StreamView::initial();
    assert(state.tool_blocks =~= state.pending.dom());
    assert(state.delta_counts.dom() =~= state.pending.dom());
}

/// Every event that the interactive client takes in keeps a stream sound.
pub proof fn law_events_keep_a_stream_sound(state: StreamView, event: StreamEvent)
    requires
        sound(state),
    ensures
        stream::advance(state, event) matches AdvanceView::Continue(step) ==> sound(step.state),
{
    let seen = StreamView { received_any_event: true, ..state };
    match event {
        StreamEvent::ContentBlockStop { index } => {
            lemma_block_closed_sound(seen, index);
            let closed = stream::block_closed(seen, index);
            if let Some(tool) = stream::closed_tool(seen, index) {
                lemma_push_keeps_stop(
                    closed.events,
                    EventView::ToolUse { id: tool.id, name: tool.name, input: tool.input },
                );
            }
        },
        _ => {
            lemma_advance_open_sound(seen, event);
        },
    }
}

/// Every event that a sub-agent takes in keeps a stream sound.
pub proof fn law_agent_events_keep_a_stream_sound(state: StreamView, event: StreamEvent)
    requires
        sound(state),
    ensures
        sound(stream::advance_agent(state, event)),
{
    let seen = StreamView { received_any_event: true, ..state };
    match event {
        StreamEvent::ContentBlockStop { index } => {
            lemma_block_closed_sound(seen, index);
            let closed = stream::block_closed(seen, index);
            if let Some(tool) = stream::closed_tool(seen, index) {
                lemma_push_keeps_stop(
                    closed.events,
                    EventView::ToolUse { id: tool.id, name: tool.name, input: tool.input },
                );
            }
        },
        _ => {
            lemma_advance_open_sound(seen, event);
        },
    }
}

/// A block that closes without an awaited tool call never had one: in a sound
/// stream there is no stop of a tool call without its start.
pub proof fn law_no_tool_stop_without_start(state: StreamView, index: u32)
    requires
        sound(state),
        !state.pending.contains_key(index),
    ensures
        !state.tool_blocks.contains(index),
{
}

/// A stream is asked for again without streaming exactly where it brought
/// neither content nor a stop.
pub proof fn law_end_needs_content_or_stop(state: StreamView, record: Option<PromptCacheRecord>)
    requires
        sound(state),
    ensures
        stream::has_stop(stream::ended(state, record)) <==> (state.saw_stop || stream::has_content(
            state.events,
        )),
{
    let events = stream::with_cache_record(state.events, record);
    if let Some(record) = record {
        if let Some(event) = record.cache_break {
            let noticed = EventView::PromptCache(event);
            lemma_push_keeps_stop(state.events, noticed);
            assert(stream::has_content(events) <==> stream::has_content(state.events)) by {
                if stream::has_content(state.events) {
                    let i = choose|i: int|
                        0 <= i < state.events.len() && stream::is_content(
                            #[trigger] state.events[i],
                        );
                    assert(stream::is_content(events[i]));
                }
                if stream::has_content(events) {
                    let i = choose|i: int|
                        0 <= i < events.len() && stream::is_content(#[trigger] events[i]);
                    assert(stream::is_content(state.events[i]));
                }
            }
        }
    }
    lemma_push_keeps_stop(events, EventView::MessageStop);
}

// ---------------------------------------------------------------------------
// Tool calls
// ---------------------------------------------------------------------------

/// The state once the pieces of a tool input have arrived at `index`.
pub open spec fn after_pieces(state: StreamView, index: u32, pieces: Seq<String>) -> StreamView
    decreases pieces.len(),
{
    if pieces.len() == 0 {
        state
    } else {
        stream::advance_agent(
            after_pieces(state, index, pieces.drop_last()),
            StreamEvent::ContentBlockDelta {
                index,
                delta: ContentBlockDelta::InputJsonDelta { partial_json: pieces.last() },
            },
        )
    }
}

/// The pieces of a text, one behind the other.
pub open spec fn concatenated(pieces: Seq<String>) -> Seq<char>
    decreases pieces.len(),
{
    if pieces.len() == 0 {
        Seq::empty()
    } else {
        concatenated(pieces.drop_last()) + pieces.last()@
    }
}

proof fn lemma_after_pieces(state: StreamView, index: u32, pieces: Seq<String>)
    requires
        state.pending.contains_key(index),
    ensures
        ({
            let next = after_pieces(state, index, pieces);
            let tool = state.pending[index];
            &&& next.events == state.events
            &&& next.pending == state.pending.insert(
                index,
                PendingView { input: tool.input + concatenated(pieces), ..tool },
            )
        }),
    decreases pieces.len(),
{
    let next = after_pieces(state, index, pieces);
    let tool = state.pending[index];
    if pieces.len() == 0 {
        assert(tool.input + concatenated(pieces) =~= tool.input);
        assert(next.pending =~= state.pending.insert(
            index,
            PendingView { input: tool.input + concatenated(pieces), ..tool },
        ));
    } else {
        lemma_after_pieces(state, index, pieces.drop_last());
        assert(tool.input + concatenated(pieces.drop_last()) + pieces.last()@ =~= tool.input
            + concatenated(pieces));
        assert(next.pending =~= state.pending.insert(
            index,
            PendingView { input: tool.input + concatenated(pieces), ..tool },
        ));
    }
}

/// The input of a tool call that opens with `input` and is followed by pieces.
pub open spec fn whole_input(input: Seq<char>, pieces: Seq<String>) -> Seq<char> {
    stream::normalized_input(stream::opening_input(input, true) + concatenated(pieces))
}

/// A tool call that is streamed piece by piece is passed on once, with its
/// pieces put together in order behind the input that it opened with, and leaves
/// nothing behind.
pub proof fn law_streamed_tool_call_is_put_together(
    state: StreamView,
    index: u32,
    block: OutputContentBlock,
    pieces: Seq<String>,
)
    requires
        block is ToolUse,
    ensures
        block matches OutputContentBlock::ToolUse { id, name, input } ==> {
            let opened = stream::advance_agent(
                state,
                StreamEvent::ContentBlockStart { index, content_block: block },
            );
            let closed = stream::advance_agent(
                after_pieces(opened, index, pieces),
                StreamEvent::ContentBlockStop { index },
            );
            &&& closed.events == state.events.push(
                EventView::ToolUse {
                    id: id@,
                    name: name@,
                    input: whole_input(input@, pieces),
                },
            )
            &&& closed.pending == state.pending.remove(index)
        },
{
    let opened = stream::advance_agent(
        state,
        StreamEvent::ContentBlockStart { index, content_block: block },
    );
    lemma_after_pieces(opened, index, pieces);
    let arrived = after_pieces(opened, index, pieces);
    let closed = stream::advance_agent(arrived, StreamEvent::ContentBlockStop { index });
    assert(closed.pending =~= state.pending.remove(index));
}

/// The state of the interactive client once the pieces of a tool input have
/// arrived is that of a sub-agent.
proof fn lemma_pieces_continue(state: StreamView, index: u32, piece: String)
    ensures
        ({
            let event = StreamEvent::ContentBlockDelta {
                index,
                delta: ContentBlockDelta::InputJsonDelta { partial_json: piece },
            };
            stream::advance(state, event) matches AdvanceView::Continue(step) && step.state
                == stream::advance_agent(state, event)
        }),
{
}

/// The same tool call at the interactive client: its start and its pieces go on
/// with the stream, and at its end it is passed on where its input is JSON;
/// otherwise the response is asked for again.
pub proof fn law_interactive_tool_call_is_put_together(
    state: StreamView,
    index: u32,
    block: OutputContentBlock,
    pieces: Seq<String>,
)
    requires
        block is ToolUse,
    ensures
        block matches OutputContentBlock::ToolUse { id, name, input } ==> {
            let start = StreamEvent::ContentBlockStart { index, content_block: block };
            let opened = stream::advance_agent(state, start);
            let arrived = after_pieces(opened, index, pieces);
            let whole = whole_input(input@, pieces);
            let end = stream::advance(arrived, StreamEvent::ContentBlockStop { index });
            &&& stream::advance(state, start) matches AdvanceView::Continue(step)
            &&& step.state == opened
            &&& forall|i: int|
                0 <= i < pieces.len() ==> {
                    let before = after_pieces(opened, index, #[trigger] pieces.take(i));
                    stream::advance(
                        before,
                        StreamEvent::ContentBlockDelta {
                            index,
                            delta: ContentBlockDelta::InputJsonDelta { partial_json: pieces[i] },
                        },
                    ) matches AdvanceView::Continue(step) && step.state == after_pieces(
                        opened,
                        index,
                        pieces.take(i + 1),
                    )
                }
            &&& match json::json_parse(whole) {
                Ok(_) => end matches AdvanceView::Continue(step) && step.state.events
                    == state.events.push(
                    EventView::ToolUse { id: id@, name: name@, input: whole },
                ) && step.state.pending == state.pending.remove(index),
                Err(error) => end matches AdvanceView::Fallback { reason, .. } && reason
                    == stream::invalid_input_reason(
                    PendingView { id: id@, name: name@, input: whole },
                    error,
                ),
            }
        },
{
    let opened = stream::advance_agent(
        state,
        StreamEvent::ContentBlockStart { index, content_block: block },
    );
    law_streamed_tool_call_is_put_together(state, index, block, pieces);
    lemma_after_pieces(opened, index, pieces);
    assert forall|i: int| 0 <= i < pieces.len() implies {
        let before = after_pieces(opened, index, #[trigger] pieces.take(i));
        stream::advance(
            before,
            StreamEvent::ContentBlockDelta {
                index,
                delta: ContentBlockDelta::InputJsonDelta { partial_json: pieces[i] },
            },
        ) matches AdvanceView::Continue(step) && step.state == after_pieces(
            opened,
            index,
            pieces.take(i + 1),
        )
    } by {
        assert(pieces.take(i + 1).drop_last() =~= pieces.take(i));
        assert(pieces.take(i + 1).last() == pieces[i]);
        lemma_pieces_continue(after_pieces(opened, index, pieces.take(i)), index, pieces[i]);
    }
}

// ---------------------------------------------------------------------------
// What is passed on
// ---------------------------------------------------------------------------

/// Whether every piece of text holds something.
pub open spec fn texts_hold_something(events: Seq<EventView>) -> bool {
    forall|i: int|
        0 <= i < events.len() ==> (#[trigger] events[i] matches EventView::TextDelta(text)
            ==> text.len() > 0)
}

/// Whether the input of every tool call is JSON.
pub open spec fn inputs_are_json(events: Seq<EventView>) -> bool {
    forall|i: int|
        0 <= i < events.len() ==> (#[trigger] events[i] matches EventView::ToolUse { input, .. }
            ==> json::json_parse(input) is Ok)
}

proof fn lemma_open_blocks_pass_on(state: StreamView, content: Seq<OutputContentBlock>)
    ensures
        texts_hold_something(state.events) ==> texts_hold_something(
            stream::open_blocks(state, content).state.events,
        ),
        inputs_are_json(state.events) ==> inputs_are_json(
            stream::open_blocks(state, content).state.events,
        ),
    decreases content.len(),
{
    if content.len() > 0 {
        lemma_open_blocks_pass_on(state, content.drop_last());
    }
}

/// A stream passes on no empty piece of text, to either client.
pub proof fn law_texts_hold_something(
    state: StreamView,
    event: StreamEvent,
    record: Option<PromptCacheRecord>,
)
    ensures
        texts_hold_something(StreamView::initial().events),
        texts_hold_something(state.events) ==> {
            &&& stream::advance(state, event) matches AdvanceView::Continue(step)
                ==> texts_hold_something(step.state.events)
            &&& texts_hold_something(stream::advance_agent(state, event).events)
            &&& texts_hold_something(stream::ended(state, record))
        },
{
    let seen = StreamView { received_any_event: true, ..state };
    if let StreamEvent::MessageStart { content } = event {
        lemma_open_blocks_pass_on(seen, content@);
    }
}

/// The interactive client passes on no tool call of a stream whose input is not
/// JSON.
pub proof fn law_streamed_inputs_are_json(
    state: StreamView,
    event: StreamEvent,
    record: Option<PromptCacheRecord>,
)
    ensures
        inputs_are_json(StreamView::initial().events),
        inputs_are_json(state.events) ==> {
            &&& stream::advance(state, event) matches AdvanceView::Continue(step)
                ==> inputs_are_json(step.state.events)
            &&& inputs_are_json(stream::ended(state, record))
        },
{
    let seen = StreamView { received_any_event: true, ..state };
    if let StreamEvent::MessageStart { content } = event {
        lemma_open_blocks_pass_on(seen, content@);
    }
}

/// A piece that arrives for one tool call leaves every other one as it is.
pub proof fn law_pieces_reach_their_own_call(
    state: StreamView,
    index: u32,
    other: u32,
    partial_json: String,
)
    requires
        index != other,
    ensures
        ({
            let next = stream::advance_agent(
                state,
                StreamEvent::ContentBlockDelta {
                    index,
                    delta: ContentBlockDelta::InputJsonDelta { partial_json },
                },
            );
            &&& next.events == state.events
            &&& next.pending.contains_key(other) == state.pending.contains_key(other)
            &&& state.pending.contains_key(other) ==> next.pending[other] == state.pending[other]
        }),
{
}

/// Where the input of every closed tool call is JSON, the interactive client
/// and a sub-agent make the same events of a stream.
pub proof fn law_clients_agree_on_valid_streams(state: StreamView, event: StreamEvent)
    requires
        stream::advance(state, event) is Continue,
    ensures
        stream::advance(state, event) matches AdvanceView::Continue(step) && step.state
            == stream::advance_agent(state, event),
{
}

// ---------------------------------------------------------------------------
// What a response says
// ---------------------------------------------------------------------------

/// The text that is passed on, its pieces one behind the other.
pub open spec fn text_passed(events: Seq<EventView>) -> Seq<char>
    decreases events.len(),
{
    if events.len() == 0 {
        Seq::empty()
    } else {
        text_passed(events.drop_last()) + match events.last() {
            EventView::TextDelta(text) => text,
            _ => Seq::empty(),
        }
    }
}

/// The answer that is shown, its pieces one behind the other.
pub open spec fn text_shown(shows: Seq<ShowView>) -> Seq<char>
    decreases shows.len(),
{
    if shows.len() == 0 {
        Seq::empty()
    } else {
        text_shown(shows.drop_last()) + match shows.last() {
            ShowView::MarkdownBlock(text) => text,
            ShowView::MarkdownPiece(text) => text,
            _ => Seq::empty(),
        }
    }
}

/// What a block says.
pub open spec fn said_by_block(block: OutputContentBlock) -> Seq<char> {
    match block {
        OutputContentBlock::Text { text } => text@,
        _ => Seq::empty(),
    }
}

/// What blocks say, one behind the other.
pub open spec fn said_by_blocks(content: Seq<OutputContentBlock>) -> Seq<char>
    decreases content.len(),
{
    if content.len() == 0 {
        Seq::empty()
    } else {
        said_by_blocks(content.drop_last()) + said_by_block(content.last())
    }
}

/// What an event of a stream says.
pub open spec fn said(event: StreamEvent) -> Seq<char> {
    match event {
        StreamEvent::MessageStart { content } => said_by_blocks(content@),
        StreamEvent::ContentBlockStart { content_block, .. } => said_by_block(content_block),
        StreamEvent::ContentBlockDelta { delta: ContentBlockDelta::TextDelta { text }, .. } => text@,
        _ => Seq::empty(),
    }
}

/// What the events of a stream say, one behind the other.
pub open spec fn said_by_all(events: Seq<StreamEvent>) -> Seq<char>
    decreases events.len(),
{
    if events.len() == 0 {
        Seq::empty()
    } else {
        said_by_all(events.drop_last()) + said(events.last())
    }
}

/// The state of a sub-agent once events have arrived.
pub open spec fn taken_in(state: StreamView, events: Seq<StreamEvent>) -> StreamView
    decreases events.len(),
{
    if events.len() == 0 {
        state
    } else {
        stream::advance_agent(taken_in(state, events.drop_last()), events.last())
    }
}

/// What the interactive client shows of events, one behind the other, and the
/// state that they leave; nothing where the response is asked for again.
pub open spec fn followed(state: StreamView, events: Seq<StreamEvent>) -> Option<
    (StreamView, Seq<ShowView>),
>
    decreases events.len(),
{
    if events.len() == 0 {
        Some((state, Seq::empty()))
    } else {
        match followed(state, events.drop_last()) {
            Some((before, shows)) => match stream::advance(before, events.last()) {
                AdvanceView::Continue(step) => Some((step.state, shows + step.shows)),
                AdvanceView::Fallback { .. } => None,
            },
            None => None,
        }
    }
}

proof fn lemma_text_passed_push(events: Seq<EventView>, event: EventView)
    ensures
        text_passed(events.push(event)) == text_passed(events) + match event {
            EventView::TextDelta(text) => text,
            _ => Seq::empty(),
        },
{
    assert(events.push(event).drop_last() =~= events);
}

proof fn lemma_text_shown_add(first: Seq<ShowView>, second: Seq<ShowView>)
    ensures
        text_shown(first + second) == text_shown(first) + text_shown(second),
    decreases second.len(),
{
    if second.len() == 0 {
        assert(first + second =~= first);
        assert(text_shown(first) + text_shown(second) =~= text_shown(first));
    } else {
        lemma_text_shown_add(first, second.drop_last());
        assert((first + second).drop_last() =~= first + second.drop_last());
        assert((first + second).last() == second.last());
        assert(text_shown(first + second) =~= text_shown(first) + text_shown(second));
    }
}

proof fn lemma_shown_of_block(block: OutputContentBlock)
    ensures
        text_shown(stream::shown(stream::shown_of_block(block))) == said_by_block(block),
{
    reveal_with_fuel(text_shown, 2);
    let shows = stream::shown(stream::shown_of_block(block));
    if shows.len() == 0 {
        assert(said_by_block(block) =~= Seq::empty());
    } else {
        assert(shows.drop_last() =~= Seq::empty());
        assert(text_shown(shows) =~= said_by_block(block));
    }
}

proof fn lemma_open_block_says(state: StreamView, block: OutputContentBlock, index: u32)
    ensures
        text_passed(stream::open_block(state, block, index).events) == text_passed(state.events)
            + said_by_block(block),
{
    match block {
        OutputContentBlock::Text { text } => {
            lemma_text_passed_push(state.events, EventView::TextDelta(text@));
        },
        _ => {},
    }
    assert(text_passed(stream::open_block(state, block, index).events) =~= text_passed(state.events)
        + said_by_block(block));
}

proof fn lemma_open_blocks_say(state: StreamView, content: Seq<OutputContentBlock>)
    ensures
        text_passed(stream::open_blocks(state, content).state.events) == text_passed(state.events)
            + said_by_blocks(content),
        text_shown(stream::open_blocks(state, content).shows) == said_by_blocks(content),
    decreases content.len(),
{
    if content.len() > 0 {
        let front = content.drop_last();
        lemma_open_blocks_say(state, front);
        let before = stream::open_blocks(state, front);
        lemma_open_block_says(before.state, content.last(), (content.len() - 1) as u32);
        lemma_shown_of_block(content.last());
        lemma_text_shown_add(before.shows, stream::shown(stream::shown_of_block(content.last())));
    }
    assert(text_passed(stream::open_blocks(state, content).state.events) =~= text_passed(
        state.events,
    ) + said_by_blocks(content));
}

proof fn lemma_advance_open_says(state: StreamView, event: StreamEvent)
    ensures
        text_passed(stream::advance_open(state, event).state.events) == text_passed(state.events)
            + said(event),
        text_shown(stream::advance_open(state, event).shows) == said(event),
{
    reveal_with_fuel(text_shown, 2);
    let step = stream::advance_open(state, event);
    match event {
        StreamEvent::MessageStart { content } => {
            lemma_open_blocks_say(state, content@);
        },
        StreamEvent::ContentBlockStart { index, content_block } => {
            lemma_open_block_says(state, content_block, index);
            lemma_shown_of_block(content_block);
        },
        StreamEvent::ContentBlockDelta { delta, .. } => {
            if let ContentBlockDelta::TextDelta { text } = delta {
                lemma_text_passed_push(state.events, EventView::TextDelta(text@));
            }
        },
        StreamEvent::ContentBlockStop { .. } => {},
        StreamEvent::MessageDelta { usage, .. } => {
            lemma_text_passed_push(state.events, EventView::Usage(usage));
        },
        StreamEvent::MessageStop => {
            lemma_text_passed_push(state.events, EventView::MessageStop);
        },
    }
    assert(text_passed(step.state.events) =~= text_passed(state.events) + said(event));
    if step.shows.len() == 1 {
        assert(step.shows.drop_last() =~= Seq::empty());
    }
    assert(text_shown(step.shows) =~= said(event));
}

/// What an event says is passed on and shown as it is, to the last character,
/// behind what was passed on before.
pub proof fn law_what_is_said_is_passed_on_and_shown(state: StreamView, event: StreamEvent)
    ensures
        text_passed(stream::advance_agent(state, event).events) == text_passed(state.events) + said(
            event,
        ),
        match stream::advance(state, event) {
            AdvanceView::Continue(step) => {
                &&& text_passed(step.state.events) == text_passed(state.events) + said(event)
                &&& text_shown(step.shows) == said(event)
            },
            AdvanceView::Fallback { shows, .. } => {
                &&& said(event).len() == 0
                &&& text_shown(shows).len() == 0
            },
        },
{
    let seen = StreamView { received_any_event: true, ..state };
    lemma_advance_open_says(seen, event);
    if let StreamEvent::ContentBlockStop { index } = event {
        let end = seq![ShowView::MarkdownEnd];
        assert(end.drop_last() =~= Seq::empty());
        assert(text_shown(end) =~= Seq::empty());
        let closed = stream::block_closed(seen, index);
        if let Some(tool) = stream::closed_tool(seen, index) {
            let call = EventView::ToolUse { id: tool.id, name: tool.name, input: tool.input };
            lemma_text_passed_push(closed.events, call);
            let shows = seq![
                ShowView::MarkdownEnd,
                ShowView::ToolCall { name: tool.name, input: tool.input },
            ];
            assert(shows.drop_last() =~= end);
            assert(text_shown(shows) =~= Seq::empty());
        }
        assert(text_passed(stream::advance_agent(state, event).events) =~= text_passed(state.events)
            + said(event));
    }
}

/// The text that a stream passes on is all that its events say, one behind the
/// other, to either client; what the interactive client shows of it is the same.
pub proof fn law_a_stream_passes_on_all_that_it_says(state: StreamView, events: Seq<StreamEvent>)
    ensures
        text_passed(taken_in(state, events).events) == text_passed(state.events) + said_by_all(
            events,
        ),
        followed(state, events) matches Some((left, shows)) ==> {
            &&& text_passed(left.events) == text_passed(state.events) + said_by_all(events)
            &&& text_shown(shows) == said_by_all(events)
        },
    decreases events.len(),
{
    if events.len() == 0 {
        assert(text_passed(state.events) + said_by_all(events) =~= text_passed(state.events));
    } else {
        let front = events.drop_last();
        law_a_stream_passes_on_all_that_it_says(state, front);
        law_what_is_said_is_passed_on_and_shown(taken_in(state, front), events.last());
        assert(text_passed(taken_in(state, events).events) =~= text_passed(state.events)
            + said_by_all(events));
        if let Some((before, shows)) = followed(state, front) {
            law_what_is_said_is_passed_on_and_shown(before, events.last());
            if let AdvanceView::Continue(step) = stream::advance(before, events.last()) {
                lemma_text_shown_add(shows, step.shows);
                assert(text_passed(step.state.events) =~= text_passed(state.events) + said_by_all(
                    events,
                ));
            }
        }
    }
}

/// The events of a run of pieces of text.
pub open spec fn text_pieces(index: u32, pieces: Seq<String>) -> Seq<StreamEvent> {
    pieces.map_values(
        |piece: String|
            StreamEvent::ContentBlockDelta {
                index,
                delta: ContentBlockDelta::TextDelta { text: piece },
            },
    )
}

/// A text that arrives in pieces never makes the client ask again, and is passed
/// on and shown with its pieces one behind the other, whatever white space they
/// begin or end with.
pub proof fn law_streamed_text_is_put_together(
    state: StreamView,
    index: u32,
    pieces: Seq<String>,
)
    ensures
        text_passed(taken_in(state, text_pieces(index, pieces)).events) == text_passed(state.events)
            + concatenated(pieces),
        followed(state, text_pieces(index, pieces)) matches Some((left, shows)) && {
            &&& text_passed(left.events) == text_passed(state.events) + concatenated(pieces)
            &&& text_shown(shows) == concatenated(pieces)
        },
    decreases pieces.len(),
{
    let events = text_pieces(index, pieces);
    if pieces.len() > 0 {
        law_streamed_text_is_put_together(state, index, pieces.drop_last());
        assert(events.drop_last() =~= text_pieces(index, pieces.drop_last()));
    }
    law_a_stream_passes_on_all_that_it_says(state, events);
    lemma_pieces_say(index, pieces);
}

proof fn lemma_pieces_say(index: u32, pieces: Seq<String>)
    ensures
        said_by_all(text_pieces(index, pieces)) == concatenated(pieces),
    decreases pieces.len(),
{
    if pieces.len() > 0 {
        let events = text_pieces(index, pieces);
        lemma_pieces_say(index, pieces.drop_last());
        assert(events.drop_last() =~= text_pieces(index, pieces.drop_last()));
    }
}

/// A piece of text that holds something is passed on as a piece of its own.
pub proof fn law_each_piece_is_passed_on_by_itself(state: StreamView, index: u32, text: String)
    requires
        text@.len() > 0,
    ensures
        ({
            let event = StreamEvent::ContentBlockDelta {
                index,
                delta: ContentBlockDelta::TextDelta { text },
            };
            &&& stream::advance_agent(state, event).events.len() == state.events.len() + 1
            &&& stream::advance_agent(state, event).events.last() == EventView::TextDelta(text@)
            &&& stream::advance(state, event) matches AdvanceView::Continue(step)
            &&& step.shows.len() == 1
            &&& step.shows[0] == ShowView::MarkdownPiece(text@)
        }),
{
}

// ---------------------------------------------------------------------------
// Calls, tokens and ends
// ---------------------------------------------------------------------------

/// A tool call: its identifier, the tool and the input.
pub struct CallView {
    pub id: Seq<char>,
    pub name: Seq<char>,
    pub input: Seq<char>,
}

/// The tool calls that are passed on, in order.
pub open spec fn calls_passed(events: Seq<EventView>) -> Seq<CallView>
    decreases events.len(),
{
    if events.len() == 0 {
        Seq::empty()
    } else {
        let before = calls_passed(events.drop_last());
        match events.last() {
            EventView::ToolUse { id, name, input } => before.push(CallView { id, name, input }),
            _ => before,
        }
    }
}

/// The tool calls that are shown, in order: the tool and the input of each.
pub open spec fn calls_shown(shows: Seq<ShowView>) -> Seq<(Seq<char>, Seq<char>)>
    decreases shows.len(),
{
    if shows.len() == 0 {
        Seq::empty()
    } else {
        let before = calls_shown(shows.drop_last());
        match shows.last() {
            ShowView::ToolCall { name, input } => before.push((name, input)),
            _ => before,
        }
    }
}

/// The tool calls among blocks, in order.
pub open spec fn calls_made(content: Seq<OutputContentBlock>) -> Seq<CallView>
    decreases content.len(),
{
    if content.len() == 0 {
        Seq::empty()
    } else {
        let before = calls_made(content.drop_last());
        match content.last() {
            OutputContentBlock::ToolUse { id, name, input } => before.push(
                CallView { id: id@, name: name@, input: input@ },
            ),
            _ => before,
        }
    }
}

/// The counts of used tokens that are passed on, in order.
pub open spec fn usages_passed(events: Seq<EventView>) -> Seq<TokenUsage>
    decreases events.len(),
{
    if events.len() == 0 {
        Seq::empty()
    } else {
        let before = usages_passed(events.drop_last());
        match events.last() {
            EventView::Usage(usage) => before.push(usage),
            _ => before,
        }
    }
}

/// The number of ends that are passed on.
pub open spec fn stops_passed(events: Seq<EventView>) -> nat
    decreases events.len(),
{
    if events.len() == 0 {
        0
    } else {
        stops_passed(events.drop_last()) + if events.last() is MessageStop {
            1nat
        } else {
            0nat
        }
    }
}

/// Whether two runs of events tell of the same calls, tokens and ends.
pub open spec fn same_besides_text(first: Seq<EventView>, second: Seq<EventView>) -> bool {
    &&& calls_passed(first) == calls_passed(second)
    &&& usages_passed(first) == usages_passed(second)
    &&& stops_passed(first) == stops_passed(second)
}

proof fn lemma_open_blocks_besides_text(state: StreamView, content: Seq<OutputContentBlock>)
    ensures
        same_besides_text(stream::open_blocks(state, content).state.events, state.events),
        calls_shown(stream::open_blocks(state, content).shows).len() == 0,
    decreases content.len(),
{
    if content.len() > 0 {
        let front = content.drop_last();
        lemma_open_blocks_besides_text(state, front);
        let before = stream::open_blocks(state, front);
        let block = content.last();
        if let OutputContentBlock::Text { text } = block {
            assert(before.state.events.push(EventView::TextDelta(text@)).drop_last()
                =~= before.state.events);
        }
        let shown = stream::shown(stream::shown_of_block(block));
        if shown.len() > 0 {
            assert((before.shows + shown).drop_last() =~= before.shows);
            assert((before.shows + shown).last() == shown[0]);
        } else {
            assert(before.shows + shown =~= before.shows);
        }
    }
}

/// Of the events of a stream, the tokens used are passed on as they are told, an
/// end as an end, and a tool call only where its block closes: with the
/// identifier and the name that it opened with.
pub proof fn law_events_tell_of_what_they_bring(state: StreamView, event: StreamEvent)
    ensures
        ({
            let events = stream::advance_agent(state, event).events;
            &&& usages_passed(events) == usages_passed(state.events) + (match event {
                StreamEvent::MessageDelta { usage, .. } => seq![usage],
                _ => Seq::empty(),
            })
            &&& stops_passed(events) == stops_passed(state.events) + (if event is MessageStop {
                1nat
            } else {
                0nat
            })
            &&& match event {
                StreamEvent::ContentBlockStop { index } if state.pending.contains_key(index) => {
                    let tool = state.pending[index];
                    &&& calls_passed(events).len() == calls_passed(state.events).len() + 1
                    &&& calls_passed(events).drop_last() == calls_passed(state.events)
                    &&& calls_passed(events).last().id == tool.id
                    &&& calls_passed(events).last().name == tool.name
                    &&& !crate::text::is_blank(tool.input) ==> calls_passed(events).last().input
                        == tool.input
                    &&& crate::text::is_blank(tool.input) ==> calls_passed(events).last().input
                        == "{}"@
                },
                _ => calls_passed(events) == calls_passed(state.events),
            }
        }),
{
    let seen = StreamView { received_any_event: true, ..state };
    let events = stream::advance_agent(state, event).events;
    match event {
        StreamEvent::MessageStart { content } => {
            lemma_open_blocks_besides_text(seen, content@);
        },
        _ => {
            if events.len() > state.events.len() {
                assert(events.drop_last() =~= state.events);
            }
        },
    }
    assert(usages_passed(events) =~= usages_passed(state.events) + (match event {
        StreamEvent::MessageDelta { usage, .. } => seq![usage],
        _ => Seq::empty(),
    }));
    if let StreamEvent::ContentBlockStop { index } = event {
        if state.pending.contains_key(index) {
            assert(calls_passed(events).drop_last() =~= calls_passed(state.events));
        }
    }
}

/// The interactive client shows every tool call that it passes on, with its name
/// and input, and no other.
pub proof fn law_passed_calls_are_shown(state: StreamView, event: StreamEvent)
    ensures
        stream::advance(state, event) matches AdvanceView::Continue(step) ==> {
            let before = calls_passed(state.events);
            let after = calls_passed(step.state.events);
            let told = calls_shown(step.shows);
            &&& after.len() == before.len() + told.len()
            &&& after.take(before.len() as int) == before
            &&& forall|i: int|
                0 <= i < told.len() ==> (#[trigger] told[i]).0 == after[before.len() + i].name
                    && told[i].1 == after[before.len() + i].input
        },
        stream::advance(state, event) matches AdvanceView::Fallback { shows, .. } ==> calls_shown(
            shows,
        ).len() == 0,
{
    let seen = StreamView { received_any_event: true, ..state };
    law_events_tell_of_what_they_bring(state, event);
    reveal_with_fuel(calls_shown, 3);
    let before = calls_passed(state.events);
    assert(before.take(before.len() as int) =~= before);
    let end = seq![ShowView::MarkdownEnd];
    assert(end.drop_last() =~= Seq::empty());
    assert(calls_shown(end).len() == 0);
    match event {
        StreamEvent::MessageStart { content } => {
            lemma_open_blocks_besides_text(seen, content@);
        },
        StreamEvent::ContentBlockStop { index } => {
            if let AdvanceView::Continue(step) = stream::advance(state, event) {
                if let Some(tool) = stream::closed_tool(seen, index) {
                    let call = ShowView::ToolCall { name: tool.name, input: tool.input };
                    assert(seq![ShowView::MarkdownEnd, call].drop_last() =~= end);
                    let after = calls_passed(step.state.events);
                    assert(after.take(before.len() as int) =~= after.drop_last());
                }
            }
        },
        _ => {
            let step = stream::advance_open(seen, event);
            if step.shows.len() == 1 {
                assert(step.shows.drop_last() =~= Seq::empty());
            }
        },
    }
}

/// Thinking is told of once for a block, and never passed on.
pub proof fn law_thinking_is_told_once(
    state: StreamView,
    index: u32,
    thinking: String,
    signature: String,
)
    ensures
        ({
            let event = StreamEvent::ContentBlockDelta {
                index,
                delta: ContentBlockDelta::ThinkingDelta { thinking },
            };
            &&& stream::advance(state, event) matches AdvanceView::Continue(step)
            &&& step.state.events == state.events
            &&& step.state.pending == state.pending
            &&& step.state.thinking_shown
            &&& step.shows.len() == (if state.thinking_shown {
                0nat
            } else {
                1nat
            })
        }),
        stream::advance_agent(state, StreamEvent::ContentBlockStop { index }).thinking_shown
            == false,
        ({
            let event = StreamEvent::ContentBlockDelta {
                index,
                delta: ContentBlockDelta::SignatureDelta { signature },
            };
            &&& stream::advance(state, event) matches AdvanceView::Continue(step)
            &&& step.shows.len() == 0
            &&& step.state.events == state.events
        }),
{
}

/// The line that stands for thinking tells how long it was, and nothing else of
/// it: two lines are the same exactly where the lengths are.
pub proof fn law_thinking_lines_tell_the_length(first: nat, second: nat)
    ensures
        stream::thinking_summary(Some(first), false) == stream::thinking_summary(
            Some(second),
            false,
        ) <==> first == second,
        exists|before: Seq<char>, after: Seq<char>|
            stream::thinking_summary(Some(first), false) == #[trigger] (before
                + crate::text::decimal(first) + after),
{
    let head = "\n▶ Thinking ("@;
    let tail = " chars hidden)\n"@;
    let a = crate::text::decimal(first);
    let b = crate::text::decimal(second);
    assert(stream::thinking_summary(Some(first), false) == head + a + tail);
    if head + a + tail == head + b + tail {
        assert((head + a + tail).len() == (head + b + tail).len());
        assert(a =~= (head + a + tail).subrange(head.len() as int, (head.len() + a.len()) as int));
        assert(b =~= (head + b + tail).subrange(head.len() as int, (head.len() + b.len()) as int));
        let most = if first < second {
            second
        } else {
            first
        };
        crate::text::lemma_decimal_reads_back(first, most);
        crate::text::lemma_decimal_reads_back(second, most);
    }
}

/// The end of a stream adds to what was passed on what the prompt cache noticed,
/// and at most an end; nothing that was passed on is lost or changed.
pub proof fn law_the_end_keeps_what_was_passed_on(
    state: StreamView,
    record: Option<PromptCacheRecord>,
)
    ensures
        ({
            let events = stream::ended(state, record);
            &&& events.len() >= state.events.len()
            &&& events.take(state.events.len() as int) == state.events
            &&& text_passed(events) == text_passed(state.events)
            &&& calls_passed(events) == calls_passed(state.events)
            &&& usages_passed(events) == usages_passed(state.events)
            &&& stops_passed(events) <= stops_passed(state.events) + 1
            &&& state.saw_stop ==> stops_passed(events) == stops_passed(state.events)
            &&& record matches Some(PromptCacheRecord { cache_break: Some(event) })
                ==> events.len() > state.events.len() && events[state.events.len() as int]
                == EventView::PromptCache(event)
        }),
{
    reveal_with_fuel(text_passed, 3);
    reveal_with_fuel(calls_passed, 3);
    reveal_with_fuel(usages_passed, 3);
    reveal_with_fuel(stops_passed, 3);
    let noticed = stream::with_cache_record(state.events, record);
    let events = stream::ended(state, record);
    if noticed.len() > state.events.len() {
        assert(noticed.drop_last() =~= state.events);
    }
    if events.len() > noticed.len() {
        assert(events.drop_last() =~= noticed);
    }
    assert(events.take(state.events.len() as int) =~= state.events);
    assert(text_passed(noticed) =~= text_passed(state.events));
    assert(text_passed(events) =~= text_passed(noticed));
}

proof fn lemma_blocks_tell(content: Seq<OutputContentBlock>)
    ensures
        text_passed(stream::events_of_blocks(content)) == said_by_blocks(content),
        calls_passed(stream::events_of_blocks(content)) == calls_made(content),
        usages_passed(stream::events_of_blocks(content)).len() == 0,
        stops_passed(stream::events_of_blocks(content)) == 0,
        text_shown(stream::shown_of_blocks(content)) == said_by_blocks(content),
    decreases content.len(),
{
    if content.len() > 0 {
        let front = content.drop_last();
        lemma_blocks_tell(front);
        let before = stream::events_of_blocks(front);
        let events = stream::events_of_blocks(content);
        if events.len() > before.len() {
            assert(events.drop_last() =~= before);
        }
        assert(text_passed(events) =~= said_by_blocks(content));
        lemma_shown_of_block(content.last());
        lemma_text_shown_add(
            stream::shown_of_blocks(front),
            stream::shown(stream::shown_of_block(content.last())),
        );
    }
}

/// A response that was not streamed is passed on with all that it says, all the
/// calls that it makes, the tokens that it used and one end, which comes last;
/// what it says is shown.
pub proof fn law_whole_responses_are_passed_on(response: MessageResponse)
    ensures
        ({
            let events = stream::events_of_response(response);
            &&& text_passed(events) == said_by_blocks(response.content@)
            &&& calls_passed(events) == calls_made(response.content@)
            &&& usages_passed(events) == seq![response.usage]
            &&& stops_passed(events) == 1
            &&& events.last() is MessageStop
        }),
        text_shown(stream::shown_of_blocks(response.content@)) == said_by_blocks(response.content@),
{
    reveal_with_fuel(text_passed, 3);
    reveal_with_fuel(calls_passed, 3);
    reveal_with_fuel(usages_passed, 3);
    reveal_with_fuel(stops_passed, 3);
    lemma_blocks_tell(response.content@);
    let events = stream::events_of_response(response);
    let used = events.drop_last();
    let made = stream::events_of_blocks(response.content@);
    assert(used =~= made.push(EventView::Usage(response.usage)));
    assert(used.drop_last() =~= made);
    assert(text_passed(events) =~= text_passed(made));
    assert(usages_passed(events) =~= seq![response.usage]);
}

/// A tool call means the same whether it is streamed or not: streamed with its
/// input whole, it makes the event that it makes in a response that is not.
pub proof fn law_streamed_and_whole_calls_agree(
    state: StreamView,
    index: u32,
    block: OutputContentBlock,
)
    requires
        block matches OutputContentBlock::ToolUse { input, .. } && !crate::text::is_blank(input@),
    ensures
        ({
            let opened = stream::advance_agent(
                state,
                StreamEvent::ContentBlockStart { index, content_block: block },
            );
            let closed = stream::advance_agent(opened, StreamEvent::ContentBlockStop { index });
            &&& calls_passed(closed.events) == calls_passed(state.events) + calls_made(seq![block])
            &&& closed.pending == state.pending.remove(index)
        }),
{
    let opened = stream::advance_agent(
        state,
        StreamEvent::ContentBlockStart { index, content_block: block },
    );
    let closed = stream::advance_agent(opened, StreamEvent::ContentBlockStop { index });
    assert(closed.events.drop_last() =~= state.events);
    reveal_with_fuel(calls_made, 2);
    assert(seq![block].drop_last() =~= Seq::empty());
    assert(calls_passed(closed.events) =~= calls_passed(state.events) + calls_made(seq![block]));
    assert(closed.pending =~= state.pending.remove(index));
}

/// The pieces of an input reach the tool as they are: where the whole holds
/// something, it is what was streamed, to the last character.
pub proof fn law_streamed_inputs_are_passed_on_as_they_are(
    state: StreamView,
    index: u32,
    id: String,
    name: String,
    input: String,
    pieces: Seq<String>,
)
    requires
        input@ == "{}"@,
        !crate::text::is_blank(concatenated(pieces)),
    ensures
        ({
            let block = OutputContentBlock::ToolUse { id, name, input };
            let opened = stream::advance_agent(
                state,
                StreamEvent::ContentBlockStart { index, content_block: block },
            );
            let closed = stream::advance_agent(
                after_pieces(opened, index, pieces),
                StreamEvent::ContentBlockStop { index },
            );
            calls_passed(closed.events) == calls_passed(state.events).push(
                CallView { id: id@, name: name@, input: concatenated(pieces) },
            )
        }),
{
    let block = OutputContentBlock::ToolUse { id, name, input };
    law_streamed_tool_call_is_put_together(state, index, block, pieces);
    assert(Seq::empty() + concatenated(pieces) =~= concatenated(pieces));
    let opened = stream::advance_agent(
        state,
        StreamEvent::ContentBlockStart { index, content_block: block },
    );
    let closed = stream::advance_agent(
        after_pieces(opened, index, pieces),
        StreamEvent::ContentBlockStop { index },
    );
    assert(closed.events.drop_last() =~= state.events);
}

/// A block that calls a tool is known by its index from its start on; any other
/// block changes nothing.
pub proof fn law_tool_calls_are_known_by_their_index(
    known: Set<u32>,
    block: OutputContentBlock,
    index: u32,
    other: u32,
)
    ensures
        block is ToolUse ==> stream::tool_indices(known, block, index).contains(index),
        block !is ToolUse ==> stream::tool_indices(known, block, index) == known,
        other != index ==> (stream::tool_indices(known, block, index).contains(other)
            <==> known.contains(other)),
{
}

/// A text that is not empty and a call are content; nothing else is.
pub proof fn law_texts_and_calls_are_content(event: EventView)
    ensures
        event is TextDelta ==> (stream::is_content(event) <==> event->TextDelta_0.len() != 0),
        event is ToolUse ==> stream::is_content(event),
        event !is TextDelta && event !is ToolUse ==> !stream::is_content(event),
{
}

} // verus!
