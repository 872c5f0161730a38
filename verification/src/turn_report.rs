//! The document that tells of a turn.

use vstd::prelude::*;

use crate::json::{self, Json, JsonObject, JsonView};
use crate::messages::{self, BlockView, ContentBlock, ConversationMessage, MessageView};
use crate::reports;
use crate::stream::{PromptCacheEvent, TokenUsage};
use crate::text;

verus! {

// ---------------------------------------------------------------------------
// Tool calls
// ---------------------------------------------------------------------------

/// The document of a block that is a tool call.
pub open spec fn tool_use_json(block: BlockView) -> Option<JsonView> {
    match block {
        BlockView::ToolUse { id, name, input } => Some(
            JsonView::Object(
                seq![
                    ("id"@, JsonView::Text(id)),
                    ("name"@, JsonView::Text(name)),
                    ("input"@, JsonView::Text(input)),
                ],
            ),
        ),
        _ => None,
    }
}

/// The document of a block that is the output of a tool.
pub open spec fn tool_result_json(block: BlockView) -> Option<JsonView> {
    match block {
        BlockView::ToolResult { tool_use_id, tool_name, output, is_error } => Some(
            JsonView::Object(
                seq![
                    ("tool_use_id"@, JsonView::Text(tool_use_id)),
                    ("tool_name"@, JsonView::Text(tool_name)),
                    ("output"@, JsonView::Text(output)),
                    ("is_error"@, JsonView::Bool(is_error)),
                ],
            ),
        ),
        _ => None,
    }
}

/// Which blocks are told of.
pub enum Told {
    ToolUses,
    ToolResults,
}

pub open spec fn told_json(told: Told, block: BlockView) -> Option<JsonView> {
    match told {
        Told::ToolUses => tool_use_json(block),
        Told::ToolResults => tool_result_json(block),
    }
}

/// The documents of the blocks that are told of.
pub open spec fn told_blocks(told: Told, blocks: Seq<BlockView>) -> Seq<JsonView>
    decreases blocks.len(),
{
    if blocks.len() == 0 {
        Seq::empty()
    } else {
        match told_json(told, blocks.last()) {
            Some(json) => told_blocks(told, blocks.drop_last()).push(json),
            None => told_blocks(told, blocks.drop_last()),
        }
    }
}

/// The documents of the blocks of all messages that are told of, in order.
pub open spec fn told_messages(told: Told, messages: Seq<MessageView>) -> Seq<JsonView>
    decreases messages.len(),
{
    if messages.len() == 0 {
        Seq::empty()
    } else {
        told_messages(told, messages.drop_last()) + told_blocks(told, messages.last().blocks)
    }
}

fn block_document(told: &Told, block: &ContentBlock) -> (r: Option<Json>)
    ensures
        match r {
            Some(json) => Some(json.view()),
            None => None,
        } == told_json(*told, block.view()),
{
    match (told, block) {
        (Told::ToolUses, ContentBlock::ToolUse { id, name, input }) => {
            let mut object = JsonObject::new();
            object.put("id", Json::of_str(id.as_str()));
            object.put("name", Json::of_str(name.as_str()));
            object.put("input", Json::of_str(input.as_str()));
            assert(object.view() =~= tool_use_json(block.view())->0->Object_0);
            Some(object.done())
        },
        (
            Told::ToolResults,
            ContentBlock::ToolResult { tool_use_id, tool_name, output, is_error },
        ) => {
            let mut object = JsonObject::new();
            object.put("tool_use_id", Json::of_str(tool_use_id.as_str()));
            object.put("tool_name", Json::of_str(tool_name.as_str()));
            object.put("output", Json::of_str(output.as_str()));
            object.put("is_error", Json::of_bool(*is_error));
            assert(object.view() =~= tool_result_json(block.view())->0->Object_0);
            Some(object.done())
        },
        _ => None,
    }
}

proof fn lemma_views_push(items: Seq<Json>, item: Json)
    ensures
        json::json_views(items.push(item)) == json::json_views(items).push(item.view()),
{
    assert(json::json_views(items.push(item)) =~= json::json_views(items).push(item.view()));
}

fn collect(told: &Told, messages: &Vec<ConversationMessage>) -> (r: Vec<Json>)
    ensures
        json::json_views(r@) == told_messages(*told, messages::message_views(messages@)),
{
    let ghost all = messages::message_views(messages@);
    let mut out: Vec<Json> = Vec::new();
    let mut i: usize = 0;
    assert(all.take(0) =~= Seq::empty());
    assert(json::json_views(out@) =~= Seq::empty());
    while i < messages.len()
        invariant
            i <= messages@.len(),
            all == messages::message_views(messages@),
            json::json_views(out@) == told_messages(*told, all.take(i as int)),
        decreases messages.len() - i,
    {
        let ghost before = json::json_views(out@);
        let ghost blocks = messages::block_views(messages@[i as int].blocks@);
        let message = &messages[i];
        let mut j: usize = 0;
        assert(blocks.take(0) =~= Seq::empty());
        assert(before + told_blocks(*told, blocks.take(0)) =~= before);
        while j < message.blocks.len()
            invariant
                j <= message.blocks@.len(),
                blocks == messages::block_views(message.blocks@),
                json::json_views(out@) == before + told_blocks(*told, blocks.take(j as int)),
            decreases message.blocks.len() - j,
        {
            assert(blocks.take(j + 1).drop_last() =~= blocks.take(j as int));
            assert(blocks.take(j + 1).last() == message.blocks@[j as int].view());
            match block_document(told, &message.blocks[j]) {
                Some(json) => {
                    proof {
                        lemma_views_push(out@, json);
                        let told_before = told_blocks(*told, blocks.take(j as int));
                        assert((before + told_before).push(json.view()) =~= before
                            + told_before.push(json.view()));
                    }
                    out.push(json);
                },
                None => {},
            }
            j += 1;
        }
        assert(blocks.take(j as int) =~= blocks);
        assert(all.take(i + 1).drop_last() =~= all.take(i as int));
        assert(all.take(i + 1).last() == messages@[i as int].view());
        i += 1;
    }
    assert(all.take(i as int) =~= all);
    out
}

/// The documents of the tool calls of a turn.
pub fn collect_tool_uses(assistant_messages: &Vec<ConversationMessage>) -> (r: Vec<Json>)
    ensures
        json::json_views(r@) == told_messages(
            Told::ToolUses,
            messages::message_views(assistant_messages@),
        ),
{
    collect(&Told::ToolUses, assistant_messages)
}

/// The documents of the tool outputs of a turn.
pub fn collect_tool_results(tool_results: &Vec<ConversationMessage>) -> (r: Vec<Json>)
    ensures
        json::json_views(r@) == told_messages(
            Told::ToolResults,
            messages::message_views(tool_results@),
        ),
{
    collect(&Told::ToolResults, tool_results)
}

// ---------------------------------------------------------------------------
// The prompt cache
// ---------------------------------------------------------------------------

pub open spec fn cache_event_json(event: PromptCacheEvent) -> JsonView {
    JsonView::Object(
        seq![
            ("unexpected"@, JsonView::Bool(event.unexpected)),
            ("reason"@, JsonView::Text(event.reason@)),
            ("reason_code"@, JsonView::Text(event.reason_code@)),
            ("diagnostic_scope"@, JsonView::Text(event.diagnostic_scope@)),
            ("changed_components"@, json::texts_json(text::texts(event.changed_components@))),
            (
                "previous_cache_read_input_tokens"@,
                json::number_json(event.previous_cache_read_input_tokens as u64),
            ),
            (
                "current_cache_read_input_tokens"@,
                json::number_json(event.current_cache_read_input_tokens as u64),
            ),
            ("token_drop"@, json::number_json(event.token_drop as u64)),
            ("elapsed_seconds"@, json::number_json(event.elapsed_seconds)),
        ],
    )
}

fn cache_event_document(event: &PromptCacheEvent) -> (r: Json)
    ensures
        r.view() == cache_event_json(*event),
{
    let mut object = JsonObject::new();
    object.put("unexpected", Json::of_bool(event.unexpected));
    object.put("reason", Json::of_str(event.reason.as_str()));
    object.put("reason_code", Json::of_str(event.reason_code.as_str()));
    object.put("diagnostic_scope", Json::of_str(event.diagnostic_scope.as_str()));
    object.put("changed_components", Json::of_strings(&event.changed_components));
    object.put(
        "previous_cache_read_input_tokens",
        Json::of_u64(event.previous_cache_read_input_tokens as u64),
    );
    object.put(
        "current_cache_read_input_tokens",
        Json::of_u64(event.current_cache_read_input_tokens as u64),
    );
    object.put("token_drop", Json::of_u64(event.token_drop as u64));
    object.put("elapsed_seconds", Json::of_u64(event.elapsed_seconds));
    assert(object.view() =~= cache_event_json(*event)->Object_0);
    object.done()
}

pub open spec fn cache_events_json(events: Seq<PromptCacheEvent>) -> Seq<JsonView> {
    events.map_values(|event: PromptCacheEvent| cache_event_json(event))
}

/// The documents of what the prompt cache noticed in a turn.
pub fn collect_prompt_cache_events(events: &Vec<PromptCacheEvent>) -> (r: Vec<Json>)
    ensures
        json::json_views(r@) == cache_events_json(events@),
{
    let mut out: Vec<Json> = Vec::new();
    let mut i: usize = 0;
    while i < events.len()
        invariant
            i <= events@.len(),
            out@.len() == i,
            forall|j: int| 0 <= j < i ==> (#[trigger] out@[j]).view() == cache_event_json(events@[j]),
        decreases events.len() - i,
    {
        out.push(cache_event_document(&events[i]));
        i += 1;
    }
    assert(json::json_views(out@) =~= cache_events_json(events@));
    out
}

// ---------------------------------------------------------------------------
// The turn
// ---------------------------------------------------------------------------

/// What a turn came to.
pub struct TurnSummary {
    pub assistant_messages: Vec<ConversationMessage>,
    pub tool_results: Vec<ConversationMessage>,
    pub prompt_cache_events: Vec<PromptCacheEvent>,
    pub iterations: usize,
    pub usage: TokenUsage,
    /// How many messages were compacted away, where any were.
    pub auto_compaction: Option<usize>,
}

pub open spec fn auto_compaction_json(removed: Option<usize>) -> JsonView {
    match removed {
        Some(removed) => JsonView::Object(
            seq![
                ("removed_messages"@, json::number_json(removed as u64)),
                ("notice"@, JsonView::Text(reports::auto_compaction_notice(removed as nat))),
            ],
        ),
        None => JsonView::Null,
    }
}

fn auto_compaction_document(removed: Option<usize>) -> (r: Json)
    ensures
        r.view() == auto_compaction_json(removed),
{
    match removed {
        Some(removed) => {
            let mut object = JsonObject::new();
            object.put("removed_messages", Json::of_u64(removed as u64));
            object.put(
                "notice",
                Json::of_str(reports::format_auto_compaction_notice(removed).as_str()),
            );
            assert(object.view() =~= auto_compaction_json(Some(removed))->Object_0);
            object.done()
        },
        None => Json::Null,
    }
}

pub open spec fn turn_usage_json(usage: TokenUsage) -> JsonView {
    JsonView::Object(
        seq![
            ("input_tokens"@, json::number_json(usage.input_tokens as u64)),
            ("output_tokens"@, json::number_json(usage.output_tokens as u64)),
            (
                "cache_creation_input_tokens"@,
                json::number_json(usage.cache_creation_input_tokens as u64),
            ),
            ("cache_read_input_tokens"@, json::number_json(usage.cache_read_input_tokens as u64)),
        ],
    )
}

fn turn_usage_document(usage: &TokenUsage) -> (r: Json)
    ensures
        r.view() == turn_usage_json(*usage),
{
    let mut object = JsonObject::new();
    object.put("input_tokens", Json::of_u64(usage.input_tokens as u64));
    object.put("output_tokens", Json::of_u64(usage.output_tokens as u64));
    object.put(
        "cache_creation_input_tokens",
        Json::of_u64(usage.cache_creation_input_tokens as u64),
    );
    object.put("cache_read_input_tokens", Json::of_u64(usage.cache_read_input_tokens as u64));
    assert(object.view() =~= turn_usage_json(*usage)->Object_0);
    object.done()
}

/// The document of a turn; `cost` is what it is estimated to cost.
pub open spec fn turn_json(summary: TurnSummary, model: Seq<char>, cost: Seq<char>) -> JsonView {
    JsonView::Object(
        seq![
            (
                "message"@,
                JsonView::Text(
                    messages::final_text(messages::message_views(summary.assistant_messages@)),
                ),
            ),
            ("model"@, JsonView::Text(model)),
            ("iterations"@, json::number_json(summary.iterations as u64)),
            ("auto_compaction"@, auto_compaction_json(summary.auto_compaction)),
            (
                "tool_uses"@,
                JsonView::Array(
                    told_messages(
                        Told::ToolUses,
                        messages::message_views(summary.assistant_messages@),
                    ),
                ),
            ),
            (
                "tool_results"@,
                JsonView::Array(
                    told_messages(
                        Told::ToolResults,
                        messages::message_views(summary.tool_results@),
                    ),
                ),
            ),
            (
                "prompt_cache_events"@,
                JsonView::Array(cache_events_json(summary.prompt_cache_events@)),
            ),
            ("usage"@, turn_usage_json(summary.usage)),
            ("estimated_cost"@, JsonView::Text(cost)),
        ],
    )
}

/// The document of a turn; `cost` is what it is estimated to cost.
pub fn turn_document(summary: &TurnSummary, model: &str, cost: &str) -> (r: Json)
    ensures
        r.view() == turn_json(*summary, model@, cost@),
{
    let mut object = JsonObject::new();
    object.put(
        "message",
        Json::of_str(messages::final_assistant_text(&summary.assistant_messages).as_str()),
    );
    object.put("model", Json::of_str(model));
    object.put("iterations", Json::of_u64(summary.iterations as u64));
    object.put("auto_compaction", auto_compaction_document(summary.auto_compaction));
    object.put("tool_uses", Json::of_items(collect_tool_uses(&summary.assistant_messages)));
    object.put("tool_results", Json::of_items(collect_tool_results(&summary.tool_results)));
    object.put(
        "prompt_cache_events",
        Json::of_items(collect_prompt_cache_events(&summary.prompt_cache_events)),
    );
    object.put("usage", turn_usage_document(&summary.usage));
    object.put("estimated_cost", Json::of_str(cost));
    assert(object.view() =~= turn_json(*summary, model@, cost@)->Object_0);
    object.done()
}

} // verus!
