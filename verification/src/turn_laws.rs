//! What holds of the document of every turn.

use vstd::prelude::*;

use crate::json::{self, JsonView};
use crate::messages::{self, BlockView, MessageView};
use crate::reports;
use crate::stream::{PromptCacheEvent, TokenUsage};
use crate::text;
use crate::turn_report::{self, Told, TurnSummary};

verus! {

/// The document of a tool call tells its identifier, its tool and its input; that of
/// an output the call that it answers, its tool, the output and whether it is an
/// error. No other block has either.
pub proof fn law_call_documents_tell_the_call(id: Seq<char>, name: Seq<char>, input: Seq<char>)
    ensures
        turn_report::tool_use_json(BlockView::ToolUse { id, name, input })->0.get("id"@) == Some(JsonView::Text(id)),
        turn_report::tool_use_json(BlockView::ToolUse { id, name, input })->0.get("name"@) == Some(JsonView::Text(name)),
        turn_report::tool_use_json(BlockView::ToolUse { id, name, input })->0.get("input"@) == Some(JsonView::Text(input)),
        turn_report::tool_use_json(BlockView::ToolUse { id, name, input }) is Some,
        turn_report::tool_use_json(BlockView::Text(input)) is None,
        turn_report::tool_result_json(BlockView::ToolUse { id, name, input }) is None,
{
    reveal_strlit("id");
    reveal_strlit("name");
    reveal_strlit("input");
    assert("id"@.len() == 2);
    assert("name"@.len() == 4);
    assert("input"@.len() == 5);
    let members = turn_report::tool_use_json(BlockView::ToolUse { id, name, input })->0->Object_0;
    json::lemma_member_at(members, 0);
    json::lemma_member_at(members, 1);
    json::lemma_member_at(members, 2);
}

/// The document of an output tells the call that it answers, its tool, the output
/// and whether it is an error.
pub proof fn law_output_documents_tell_the_output(tool_use_id: Seq<char>, tool_name: Seq<char>, output: Seq<char>, is_error: bool)
    ensures
        turn_report::tool_result_json(BlockView::ToolResult { tool_use_id, tool_name, output, is_error })->0.get("tool_use_id"@) == Some(JsonView::Text(tool_use_id)),
        turn_report::tool_result_json(BlockView::ToolResult { tool_use_id, tool_name, output, is_error })->0.get("tool_name"@) == Some(JsonView::Text(tool_name)),
        turn_report::tool_result_json(BlockView::ToolResult { tool_use_id, tool_name, output, is_error })->0.get("output"@) == Some(JsonView::Text(output)),
        turn_report::tool_result_json(BlockView::ToolResult { tool_use_id, tool_name, output, is_error })->0.get("is_error"@) == Some(JsonView::Bool(is_error)),
        turn_report::tool_result_json(BlockView::ToolResult { tool_use_id, tool_name, output, is_error }) is Some,
        turn_report::tool_result_json(BlockView::Text(output)) is None,
        turn_report::tool_use_json(BlockView::ToolResult { tool_use_id, tool_name, output, is_error }) is None,
{
    reveal_strlit("tool_use_id");
    reveal_strlit("tool_name");
    reveal_strlit("output");
    reveal_strlit("is_error");
    assert("tool_use_id"@.len() == 11);
    assert("tool_name"@.len() == 9);
    assert("output"@.len() == 6);
    assert("is_error"@.len() == 8);
    let members = turn_report::tool_result_json(BlockView::ToolResult { tool_use_id, tool_name, output, is_error })->0->Object_0;
    json::lemma_member_at(members, 0);
    json::lemma_member_at(members, 1);
    json::lemma_member_at(members, 2);
    json::lemma_member_at(members, 3);
}

/// The calls and the outputs of a turn are told one after the other: what two runs
/// of messages tell, they tell together, and a message tells of its blocks in
/// their order.
pub proof fn law_turns_tell_of_their_blocks_in_order(
    told: Told,
    first: Seq<MessageView>,
    second: Seq<MessageView>,
    message: MessageView,
    block: BlockView,
)
    ensures
        turn_report::told_messages(told, first + second) == turn_report::told_messages(told, first)
            + turn_report::told_messages(told, second),
        message.blocks == seq![block] ==> turn_report::told_messages(told, seq![message]) == (
        match turn_report::told_json(told, block) {
            Some(json) => seq![json],
            None => Seq::empty(),
        }),
        turn_report::told_json(Told::ToolUses, block) is Some <==> block is ToolUse,
        turn_report::told_json(Told::ToolResults, block) is Some <==> block is ToolResult,
{
    lemma_told_parts(told, first, second);
    if message.blocks == seq![block] {
        reveal_with_fuel(turn_report::told_messages, 2);
        reveal_with_fuel(turn_report::told_blocks, 2);
        assert(seq![message].drop_last() =~= Seq::empty());
        assert(seq![block].drop_last() =~= Seq::empty());
        assert(turn_report::told_messages(told, seq![message]) =~= (match turn_report::told_json(
            told,
            block,
        ) {
            Some(json) => seq![json],
            None => Seq::empty(),
        }));
    }
}

proof fn lemma_told_parts(told: Told, first: Seq<MessageView>, second: Seq<MessageView>)
    ensures
        turn_report::told_messages(told, first + second) == turn_report::told_messages(told, first)
            + turn_report::told_messages(told, second),
    decreases second.len(),
{
    if second.len() == 0 {
        assert(first + second =~= first);
        assert(turn_report::told_messages(told, first) + turn_report::told_messages(told, second)
            =~= turn_report::told_messages(told, first));
    } else {
        lemma_told_parts(told, first, second.drop_last());
        assert((first + second).drop_last() =~= first + second.drop_last());
        assert((first + second).last() == second.last());
        assert(turn_report::told_messages(told, first + second) =~= turn_report::told_messages(
            told,
            first,
        ) + turn_report::told_messages(told, second));
    }
}

/// The blocks of a message are told in their order.
pub proof fn law_blocks_are_told_in_order(
    told: Told,
    first: Seq<BlockView>,
    second: Seq<BlockView>,
)
    ensures
        turn_report::told_blocks(told, first + second) == turn_report::told_blocks(told, first)
            + turn_report::told_blocks(told, second),
    decreases second.len(),
{
    if second.len() == 0 {
        assert(first + second =~= first);
        assert(turn_report::told_blocks(told, first) + turn_report::told_blocks(told, second)
            =~= turn_report::told_blocks(told, first));
    } else {
        law_blocks_are_told_in_order(told, first, second.drop_last());
        assert((first + second).drop_last() =~= first + second.drop_last());
        assert((first + second).last() == second.last());
        assert(turn_report::told_blocks(told, first + second) =~= turn_report::told_blocks(
            told,
            first,
        ) + turn_report::told_blocks(told, second));
    }
}

/// The document of what the prompt cache noticed tells all of it, each under its
/// name.
pub proof fn law_cache_documents_tell_what_was_noticed(event: PromptCacheEvent)
    ensures
        turn_report::cache_event_json(event).get("unexpected"@) == Some(JsonView::Bool(event.unexpected)),
        turn_report::cache_event_json(event).get("reason"@) == Some(JsonView::Text(event.reason@)),
        turn_report::cache_event_json(event).get("reason_code"@) == Some(JsonView::Text(event.reason_code@)),
        turn_report::cache_event_json(event).get("diagnostic_scope"@) == Some(JsonView::Text(event.diagnostic_scope@)),
        turn_report::cache_event_json(event).get("changed_components"@) == Some(json::texts_json(text::texts(event.changed_components@))),
        turn_report::cache_event_json(event).get("previous_cache_read_input_tokens"@) == Some(json::number_json(event.previous_cache_read_input_tokens as u64)),
        turn_report::cache_event_json(event).get("current_cache_read_input_tokens"@) == Some(json::number_json(event.current_cache_read_input_tokens as u64)),
        turn_report::cache_event_json(event).get("token_drop"@) == Some(json::number_json(event.token_drop as u64)),
        turn_report::cache_event_json(event).get("elapsed_seconds"@) == Some(json::number_json(event.elapsed_seconds)),
{
    reveal_strlit("unexpected");
    reveal_strlit("reason");
    reveal_strlit("reason_code");
    reveal_strlit("diagnostic_scope");
    reveal_strlit("changed_components");
    reveal_strlit("previous_cache_read_input_tokens");
    reveal_strlit("current_cache_read_input_tokens");
    reveal_strlit("token_drop");
    reveal_strlit("elapsed_seconds");
    assert("unexpected"@.len() == 10);
    assert("reason"@.len() == 6);
    assert("reason_code"@.len() == 11);
    assert("diagnostic_scope"@.len() == 16);
    assert("changed_components"@.len() == 18);
    assert("previous_cache_read_input_tokens"@.len() == 32);
    assert("current_cache_read_input_tokens"@.len() == 31);
    assert("token_drop"@.len() == 10);
    assert("elapsed_seconds"@.len() == 15);
    assert("token_drop"@[0] == 't');
    assert("unexpected"@[0] == 'u');
    let members = turn_report::cache_event_json(event)->Object_0;
    json::lemma_member_at(members, 0);
    json::lemma_member_at(members, 1);
    json::lemma_member_at(members, 2);
    json::lemma_member_at(members, 3);
    json::lemma_member_at(members, 4);
    json::lemma_member_at(members, 5);
    json::lemma_member_at(members, 6);
    json::lemma_member_at(members, 7);
    json::lemma_member_at(members, 8);
}

/// The document of a compaction tells how many messages were removed; without one
/// there is none.
pub proof fn law_compactions_are_told(removed: usize)
    ensures
        turn_report::auto_compaction_json(Some(removed)).get("removed_messages"@) == Some(json::number_json(removed as u64)),
        turn_report::auto_compaction_json(Some(removed)).get("notice"@) == Some(JsonView::Text(reports::auto_compaction_notice(removed as nat))),
        turn_report::auto_compaction_json(None) is Null,
{
    reveal_strlit("removed_messages");
    reveal_strlit("notice");
    assert("removed_messages"@.len() == 16);
    assert("notice"@.len() == 6);
    let members = turn_report::auto_compaction_json(Some(removed))->Object_0;
    json::lemma_member_at(members, 0);
    json::lemma_member_at(members, 1);
}

/// The document of used tokens tells each count under its name.
pub proof fn law_used_tokens_are_told(usage: TokenUsage)
    ensures
        turn_report::turn_usage_json(usage).get("input_tokens"@) == Some(json::number_json(usage.input_tokens as u64)),
        turn_report::turn_usage_json(usage).get("output_tokens"@) == Some(json::number_json(usage.output_tokens as u64)),
        turn_report::turn_usage_json(usage).get("cache_creation_input_tokens"@) == Some(json::number_json(usage.cache_creation_input_tokens as u64)),
        turn_report::turn_usage_json(usage).get("cache_read_input_tokens"@) == Some(json::number_json(usage.cache_read_input_tokens as u64)),
{
    reveal_strlit("input_tokens");
    reveal_strlit("output_tokens");
    reveal_strlit("cache_creation_input_tokens");
    reveal_strlit("cache_read_input_tokens");
    assert("input_tokens"@.len() == 12);
    assert("output_tokens"@.len() == 13);
    assert("cache_creation_input_tokens"@.len() == 27);
    assert("cache_read_input_tokens"@.len() == 23);
    let members = turn_report::turn_usage_json(usage)->Object_0;
    json::lemma_member_at(members, 0);
    json::lemma_member_at(members, 1);
    json::lemma_member_at(members, 2);
    json::lemma_member_at(members, 3);
}

/// The document of a turn tells its last message, its model and its cost, how many
/// rounds it took, the calls of the model, the outputs of its tools, what the cache
/// noticed and the tokens that it used.
pub proof fn law_turn_documents_tell_the_turn(summary: TurnSummary, model: Seq<char>, cost: Seq<char>)
    ensures
        turn_report::turn_json(summary, model, cost).get("message"@) == Some(JsonView::Text(messages::final_text(messages::message_views(summary.assistant_messages@)))),
        turn_report::turn_json(summary, model, cost).get("model"@) == Some(JsonView::Text(model)),
        turn_report::turn_json(summary, model, cost).get("iterations"@) == Some(json::number_json(summary.iterations as u64)),
        turn_report::turn_json(summary, model, cost).get("auto_compaction"@) == Some(turn_report::auto_compaction_json(summary.auto_compaction)),
        turn_report::turn_json(summary, model, cost).get("tool_uses"@) == Some(JsonView::Array(turn_report::told_messages(Told::ToolUses, messages::message_views(summary.assistant_messages@)))),
        turn_report::turn_json(summary, model, cost).get("tool_results"@) == Some(JsonView::Array(turn_report::told_messages(Told::ToolResults, messages::message_views(summary.tool_results@)))),
        turn_report::turn_json(summary, model, cost).get("prompt_cache_events"@) == Some(JsonView::Array(summary.prompt_cache_events@.map_values(|event: PromptCacheEvent| turn_report::cache_event_json(event)))),
        turn_report::turn_json(summary, model, cost).get("usage"@) == Some(turn_report::turn_usage_json(summary.usage)),
        turn_report::turn_json(summary, model, cost).get("estimated_cost"@) == Some(JsonView::Text(cost)),
{
    reveal_strlit("message");
    reveal_strlit("model");
    reveal_strlit("iterations");
    reveal_strlit("auto_compaction");
    reveal_strlit("tool_uses");
    reveal_strlit("tool_results");
    reveal_strlit("prompt_cache_events");
    reveal_strlit("usage");
    reveal_strlit("estimated_cost");
    assert("message"@.len() == 7);
    assert("model"@.len() == 5);
    assert("iterations"@.len() == 10);
    assert("auto_compaction"@.len() == 15);
    assert("tool_uses"@.len() == 9);
    assert("tool_results"@.len() == 12);
    assert("prompt_cache_events"@.len() == 19);
    assert("usage"@.len() == 5);
    assert("estimated_cost"@.len() == 14);
    assert("model"@[0] == 'm');
    assert("usage"@[0] == 'u');
    let members = turn_report::turn_json(summary, model, cost)->Object_0;
    json::lemma_member_at(members, 0);
    json::lemma_member_at(members, 1);
    json::lemma_member_at(members, 2);
    json::lemma_member_at(members, 3);
    json::lemma_member_at(members, 4);
    json::lemma_member_at(members, 5);
    json::lemma_member_at(members, 6);
    json::lemma_member_at(members, 7);
    json::lemma_member_at(members, 8);
}

} // verus!
