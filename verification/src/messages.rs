//! Conversation messages, and the form in which they are sent to a provider.

use vstd::prelude::*;

use crate::json::{self, Json, JsonView};
use crate::text;

verus! {

// ---------------------------------------------------------------------------
// Conversation messages
// ---------------------------------------------------------------------------

#[derive(Debug, Clone, Copy, PartialEq, Eq, Structural)]
pub enum MessageRole {
    System,
    User,
    Assistant,
    Tool,
}

/// One block of a conversation message. The output of a tool is held in the
/// form in which it is shown to the model.
#[derive(Debug, PartialEq, Eq)]
pub enum ContentBlock {
    Text { text: String },
    ToolUse { id: String, name: String, input: String },
    ToolResult { tool_use_id: String, tool_name: String, output: String, is_error: bool },
}

pub enum BlockView {
    Text(Seq<char>),
    ToolUse { id: Seq<char>, name: Seq<char>, input: Seq<char> },
    ToolResult {
        tool_use_id: Seq<char>,
        tool_name: Seq<char>,
        output: Seq<char>,
        is_error: bool,
    },
}

impl ContentBlock {
    pub open spec fn view(&self) -> BlockView {
        match self {
            ContentBlock::Text { text } => BlockView::Text(text@),
            ContentBlock::ToolUse { id, name, input } => BlockView::ToolUse {
                id: id@,
                name: name@,
                input: input@,
            },
            ContentBlock::ToolResult { tool_use_id, tool_name, output, is_error } => {
                BlockView::ToolResult {
                    tool_use_id: tool_use_id@,
                    tool_name: tool_name@,
                    output: output@,
                    is_error: *is_error,
                }
            },
        }
    }
}

#[derive(Debug, PartialEq, Eq)]
pub struct ConversationMessage {
    pub role: MessageRole,
    pub blocks: Vec<ContentBlock>,
}

pub struct MessageView {
    pub role: MessageRole,
    pub blocks: Seq<BlockView>,
}

pub open spec fn block_views(blocks: Seq<ContentBlock>) -> Seq<BlockView> {
    blocks.map_values(|b: ContentBlock| b.view())
}

impl ConversationMessage {
    pub open spec fn view(&self) -> MessageView {
        MessageView { role: self.role, blocks: block_views(self.blocks@) }
    }

    /// A text that the user says.
    pub open spec fn of_user(text: Seq<char>) -> MessageView {
        MessageView { role: MessageRole::User, blocks: seq![BlockView::Text(text)] }
    }

    /// What the assistant says.
    pub open spec fn of_assistant(blocks: Seq<BlockView>) -> MessageView {
        MessageView { role: MessageRole::Assistant, blocks }
    }

    /// What came out of a tool call.
    pub open spec fn of_tool(
        tool_use_id: Seq<char>,
        tool_name: Seq<char>,
        output: Seq<char>,
        is_error: bool,
    ) -> MessageView {
        MessageView {
            role: MessageRole::Tool,
            blocks: seq![BlockView::ToolResult { tool_use_id, tool_name, output, is_error }],
        }
    }

    /// A message of the user made of one text.
    pub fn user_text(text: &str) -> (r: ConversationMessage)
        ensures
            r.view() == Self::of_user(text@),
    {
        let mut blocks: Vec<ContentBlock> = Vec::new();
        blocks.push(ContentBlock::Text { text: text.to_string() });
        let r = ConversationMessage { role: MessageRole::User, blocks };
        assert(r.view().blocks =~= seq![BlockView::Text(text@)]);
        r
    }

    /// A message of the model.
    pub fn assistant(blocks: Vec<ContentBlock>) -> (r: ConversationMessage)
        ensures
            r.view() == Self::of_assistant(block_views(blocks@)),
    {
        ConversationMessage { role: MessageRole::Assistant, blocks }
    }

    /// The message that carries the output of one tool call.
    pub fn tool_result(tool_use_id: &str, tool_name: &str, output: &str, is_error: bool) -> (r:
        ConversationMessage)
        ensures
            r.view() == Self::of_tool(tool_use_id@, tool_name@, output@, is_error),
    {
        let mut blocks: Vec<ContentBlock> = Vec::new();
        blocks.push(
            ContentBlock::ToolResult {
                tool_use_id: tool_use_id.to_string(),
                tool_name: tool_name.to_string(),
                output: output.to_string(),
                is_error,
            },
        );
        let r = ConversationMessage { role: MessageRole::Tool, blocks };
        assert(r.view().blocks =~= seq![
            BlockView::ToolResult {
                tool_use_id: tool_use_id@,
                tool_name: tool_name@,
                output: output@,
                is_error,
            },
        ]);
        r
    }
}

pub open spec fn message_views(messages: Seq<ConversationMessage>) -> Seq<MessageView> {
    messages.map_values(|m: ConversationMessage| m.view())
}

// ---------------------------------------------------------------------------
// Provider messages
// ---------------------------------------------------------------------------

/// How long a provider may keep a marked prefix of a request.
#[derive(Debug, Clone, Copy, PartialEq, Eq, Structural)]
pub enum CacheControl {
    Ephemeral,
}

/// One block of a provider message.
#[derive(Debug)]
pub enum InputContentBlock {
    Text { text: String, cache_control: Option<CacheControl> },
    ToolUse { id: String, name: String, input: Json },
    ToolResult {
        tool_use_id: String,
        content: String,
        is_error: bool,
        cache_control: Option<CacheControl>,
    },
}

pub enum InputBlockView {
    Text { text: Seq<char>, cache_control: Option<CacheControl> },
    ToolUse { id: Seq<char>, name: Seq<char>, input: JsonView },
    ToolResult {
        tool_use_id: Seq<char>,
        content: Seq<char>,
        is_error: bool,
        cache_control: Option<CacheControl>,
    },
}

impl InputContentBlock {
    pub open spec fn view(&self) -> InputBlockView {
        match self {
            InputContentBlock::Text { text, cache_control } => InputBlockView::Text {
                text: text@,
                cache_control: *cache_control,
            },
            InputContentBlock::ToolUse { id, name, input } => InputBlockView::ToolUse {
                id: id@,
                name: name@,
                input: input.view(),
            },
            InputContentBlock::ToolResult { tool_use_id, content, is_error, cache_control } => {
                InputBlockView::ToolResult {
                    tool_use_id: tool_use_id@,
                    content: content@,
                    is_error: *is_error,
                    cache_control: *cache_control,
                }
            },
        }
    }
}

/// A message as a provider takes it: it comes from the user or from the model.
#[derive(Debug)]
pub struct InputMessage {
    pub role: String,
    pub content: Vec<InputContentBlock>,
}

pub struct InputMessageView {
    pub role: Seq<char>,
    pub content: Seq<InputBlockView>,
}

pub open spec fn input_block_views(blocks: Seq<InputContentBlock>) -> Seq<InputBlockView> {
    blocks.map_values(|b: InputContentBlock| b.view())
}

impl InputMessage {
    pub open spec fn view(&self) -> InputMessageView {
        InputMessageView { role: self.role@, content: input_block_views(self.content@) }
    }
}

pub open spec fn input_message_views(messages: Seq<InputMessage>) -> Seq<InputMessageView> {
    messages.map_values(|m: InputMessage| m.view())
}

// ---------------------------------------------------------------------------
// Conversion
// ---------------------------------------------------------------------------

/// The role under which a provider takes a message: only the model's own
/// messages are not the user's.
pub open spec fn wire_role(role: MessageRole) -> Seq<char> {
    match role {
        MessageRole::Assistant => "assistant"@,
        _ => "user"@,
    }
}

/// The input of a tool call as a document: what the text parses to, or an
/// object that holds the text as it is.
pub open spec fn input_document(parsed: Result<JsonView, Seq<char>>, input: Seq<char>) -> JsonView {
    match parsed {
        Ok(document) => document,
        Err(_) => JsonView::Object(seq![("raw"@, JsonView::Text(input))]),
    }
}

/// A block in the form in which a provider takes it.
pub open spec fn wire_block(block: BlockView) -> InputBlockView {
    match block {
        BlockView::Text(text) => InputBlockView::Text { text, cache_control: None },
        BlockView::ToolUse { id, name, input } => InputBlockView::ToolUse {
            id,
            name,
            input: input_document(json::json_parse(input), input),
        },
        BlockView::ToolResult { tool_use_id, tool_name, output, is_error } => {
            InputBlockView::ToolResult {
                tool_use_id,
                content: output,
                is_error,
                cache_control: None,
            }
        },
    }
}

pub open spec fn wire_blocks(blocks: Seq<BlockView>) -> Seq<InputBlockView> {
    blocks.map_values(|b: BlockView| wire_block(b))
}

pub open spec fn wire_message(message: MessageView) -> InputMessageView {
    InputMessageView { role: wire_role(message.role), content: wire_blocks(message.blocks) }
}

/// Whether the last message that holds anything carries tool outputs.
pub open spec fn ends_in_tool_output(messages: Seq<MessageView>) -> bool
    decreases messages.len(),
{
    if messages.len() == 0 {
        false
    } else if messages.last().blocks.len() == 0 {
        ends_in_tool_output(messages.drop_last())
    } else {
        messages.last().role == MessageRole::Tool
    }
}

/// A conversation as it is sent: empty messages are left out, and the outputs
/// of tools that follow each other are sent in one message.
pub open spec fn wire_messages(messages: Seq<MessageView>) -> Seq<InputMessageView>
    decreases messages.len(),
{
    if messages.len() == 0 {
        Seq::empty()
    } else {
        let done = wire_messages(messages.drop_last());
        let message = messages.last();
        if message.blocks.len() == 0 {
            done
        } else if message.role == MessageRole::Tool && ends_in_tool_output(messages.drop_last()) {
            done.drop_last().push(
                InputMessageView {
                    role: done.last().role,
                    content: done.last().content + wire_blocks(message.blocks),
                },
            )
        } else {
            done.push(wire_message(message))
        }
    }
}

/// A conversation as a sub-agent sends it: empty messages are left out, and
/// each other message is sent on its own.
pub open spec fn wire_messages_apart(messages: Seq<MessageView>) -> Seq<InputMessageView>
    decreases messages.len(),
{
    if messages.len() == 0 {
        Seq::empty()
    } else {
        let done = wire_messages_apart(messages.drop_last());
        if messages.last().blocks.len() == 0 {
            done
        } else {
            done.push(wire_message(messages.last()))
        }
    }
}

proof fn lemma_wire_messages_tail(messages: Seq<MessageView>)
    requires
        ends_in_tool_output(messages),
    ensures
        wire_messages(messages).len() > 0,
        wire_messages(messages).last().role == "user"@,
    decreases messages.len(),
{
    if messages.last().blocks.len() == 0 {
        lemma_wire_messages_tail(messages.drop_last());
    } else if ends_in_tool_output(messages.drop_last()) {
        lemma_wire_messages_tail(messages.drop_last());
    }
}

/// The role under which a provider takes a message.
pub fn wire_role_name(role: MessageRole) -> (r: &'static str)
    ensures
        r@ == wire_role(role),
{
    match role {
        MessageRole::Assistant => "assistant",
        MessageRole::System | MessageRole::User | MessageRole::Tool => "user",
    }
}

/// Whether this is the document of a tool's input.
pub open spec fn is_input_document(
    parsed: Result<Json, String>,
    input: Seq<char>,
    document: JsonView,
) -> bool {
    &&& parsed is Ok ==> document == parsed->Ok_0.view()
    &&& parsed is Err ==> document == JsonView::Object(seq![("raw"@, JsonView::Text(input))])
}

/// The input of a tool call as a document, from what parsing its text gave.
pub fn tool_input_document(parsed: Result<Json, String>, input: &str) -> (r: Json)
    ensures
        is_input_document(parsed, input@, r.view()),
{
    match parsed {
        Ok(document) => document,
        Err(_) => {
            let mut members: Vec<(String, Json)> = Vec::new();
            members.push(("raw".to_string(), Json::Text(input.to_string())));
            let r = Json::Object(members);
            proof {
                reveal_with_fuel(Json::view, 2);
                assert(r.view()->Object_0 =~= seq![("raw"@, JsonView::Text(input@))]);
            }
            r
        },
    }
}

/// A block in the form in which a provider takes it.
pub fn convert_block(block: &ContentBlock) -> (r: InputContentBlock)
    ensures
        r.view() == wire_block(block.view()),
{
    match block {
        ContentBlock::Text { text } => InputContentBlock::Text {
            text: text.clone(),
            cache_control: None,
        },
        ContentBlock::ToolUse { id, name, input } => InputContentBlock::ToolUse {
            id: id.clone(),
            name: name.clone(),
            input: tool_input_document(json::parse_json(input.as_str()), input.as_str()),
        },
        ContentBlock::ToolResult { tool_use_id, tool_name, output, is_error } => {
            InputContentBlock::ToolResult {
                tool_use_id: tool_use_id.clone(),
                content: output.clone(),
                is_error: *is_error,
                cache_control: None,
            }
        },
    }
}

fn convert_blocks(blocks: &Vec<ContentBlock>) -> (r: Vec<InputContentBlock>)
    ensures
        input_block_views(r@) == wire_blocks(block_views(blocks@)),
{
    let mut out: Vec<InputContentBlock> = Vec::new();
    let mut i: usize = 0;
    while i < blocks.len()
        invariant
            i <= blocks@.len(),
            input_block_views(out@) == wire_blocks(block_views(blocks@)).take(i as int),
        decreases blocks.len() - i,
    {
        let ghost before = out@;
        out.push(convert_block(&blocks[i]));
        i += 1;
        assert(input_block_views(out@) =~= input_block_views(before).push(out@.last().view()));
        assert(wire_blocks(block_views(blocks@)).take(i as int) =~= wire_blocks(
            block_views(blocks@),
        ).take(i - 1).push(wire_block(blocks@[i - 1].view())));
    }
    assert(wire_blocks(block_views(blocks@)).take(i as int) =~= wire_blocks(block_views(blocks@)));
    out
}

/// The conversation as the interactive client sends it: messages without blocks
/// are left out, and neighbouring messages of tool outputs are sent as one.
pub fn convert_messages(messages: &Vec<ConversationMessage>) -> (r: Vec<InputMessage>)
    ensures
        input_message_views(r@) == wire_messages(message_views(messages@)),
{
    let mut converted: Vec<InputMessage> = Vec::new();
    let mut previous_source_was_tool = false;
    let ghost all = message_views(messages@);
    let mut i: usize = 0;
    assert(all.take(0) =~= Seq::empty());
    assert(input_message_views(converted@) =~= Seq::empty());
    while i < messages.len()
        invariant
            i <= messages@.len(),
            all == message_views(messages@),
            input_message_views(converted@) == wire_messages(all.take(i as int)),
            previous_source_was_tool == ends_in_tool_output(all.take(i as int)),
        decreases messages.len() - i,
    {
        let ghost done = all.take(i as int);
        let message = &messages[i];
        let source_is_tool = message.role == MessageRole::Tool;
        let content = convert_blocks(&message.blocks);
        let ghost before = converted@;
        proof {
            assert(all.take(i + 1).drop_last() =~= done);
            assert(all.take(i + 1).last() == message.view());
            assert(input_block_views(content@).len() == content@.len());
        }
        i += 1;
        if content.len() == 0 {
            continue ;
        }
        if source_is_tool && previous_source_was_tool {
            proof {
                lemma_wire_messages_tail(done);
            }
            match converted.pop() {
                Some(mut last) => {
                    let ghost old_last = last;
                    let mut content = content;
                    let ghost added = content@;
                    last.content.append(&mut content);
                    converted.push(last);
                    proof {
                        assert(input_message_views(before).last() == old_last.view());
                        assert(last.view().content =~= old_last.view().content + input_block_views(
                            added,
                        ));
                        assert(input_message_views(converted@) =~= wire_messages(
                            all.take(i as int),
                        ));
                    }
                },
                None => {},
            }
            previous_source_was_tool = true;
            continue ;
        }
        let role = wire_role_name(message.role).to_string();
        let converted_message = InputMessage { role, content };
        converted.push(converted_message);
        proof {
            assert(input_message_views(converted@) =~= input_message_views(before).push(
                converted_message.view(),
            ));
        }
        previous_source_was_tool = source_is_tool;
    }
    assert(all.take(i as int) =~= all);
    converted
}

/// The conversation as a sub-agent sends it: messages without blocks are left
/// out.
pub fn convert_messages_apart(messages: &Vec<ConversationMessage>) -> (r: Vec<InputMessage>)
    ensures
        input_message_views(r@) == wire_messages_apart(message_views(messages@)),
{
    let mut converted: Vec<InputMessage> = Vec::new();
    let ghost all = message_views(messages@);
    let mut i: usize = 0;
    assert(all.take(0) =~= Seq::empty());
    assert(input_message_views(converted@) =~= Seq::empty());
    while i < messages.len()
        invariant
            i <= messages@.len(),
            all == message_views(messages@),
            input_message_views(converted@) == wire_messages_apart(all.take(i as int)),
        decreases messages.len() - i,
    {
        let message = &messages[i];
        let content = convert_blocks(&message.blocks);
        let ghost before = converted@;
        proof {
            assert(all.take(i + 1).drop_last() =~= all.take(i as int));
            assert(all.take(i + 1).last() == message.view());
            assert(input_block_views(content@).len() == content@.len());
        }
        i += 1;
        if content.len() > 0 {
            let role = wire_role_name(message.role).to_string();
            let converted_message = InputMessage { role, content };
            converted.push(converted_message);
            proof {
                assert(input_message_views(converted@) =~= input_message_views(before).push(
                    converted_message.view(),
                ));
            }
        }
    }
    assert(all.take(i as int) =~= all);
    converted
}

// ---------------------------------------------------------------------------
// Laws of the conversion
// ---------------------------------------------------------------------------

/// The blocks of a conversation in order.
pub open spec fn all_blocks(messages: Seq<MessageView>) -> Seq<BlockView>
    decreases messages.len(),
{
    if messages.len() == 0 {
        Seq::empty()
    } else {
        all_blocks(messages.drop_last()) + messages.last().blocks
    }
}

/// The blocks of a sent conversation in order.
pub open spec fn all_sent_blocks(messages: Seq<InputMessageView>) -> Seq<InputBlockView>
    decreases messages.len(),
{
    if messages.len() == 0 {
        Seq::empty()
    } else {
        all_sent_blocks(messages.drop_last()) + messages.last().content
    }
}

/// Every block of a conversation is sent, once and in its place: grouping tool
/// outputs neither drops, repeats nor reorders anything.
pub proof fn law_conversion_keeps_every_block(messages: Seq<MessageView>)
    ensures
        all_sent_blocks(wire_messages(messages)) == wire_blocks(all_blocks(messages)),
    decreases messages.len(),
{
    if messages.len() == 0 {
        assert(wire_blocks(all_blocks(messages)) =~= Seq::empty());
    } else {
        let front = messages.drop_last();
        let message = messages.last();
        law_conversion_keeps_every_block(front);
        let done = wire_messages(front);
        assert(wire_blocks(all_blocks(messages)) =~= wire_blocks(all_blocks(front)) + wire_blocks(
            message.blocks,
        ));
        if message.blocks.len() == 0 {
            assert(wire_blocks(message.blocks) =~= Seq::empty());
            assert(wire_blocks(all_blocks(messages)) =~= wire_blocks(all_blocks(front)));
        } else if message.role == MessageRole::Tool && ends_in_tool_output(front) {
            lemma_wire_messages_tail(front);
            let sent = wire_messages(messages);
            assert(sent.drop_last() =~= done.drop_last());
            assert(sent.last().content =~= done.last().content + wire_blocks(message.blocks));
            assert(all_sent_blocks(sent) =~= all_sent_blocks(done) + wire_blocks(message.blocks));
        } else {
            let sent = wire_messages(messages);
            assert(sent.drop_last() =~= done);
        }
    }
}

/// No message is sent without content, and every message comes from the user
/// or from the model.
pub proof fn law_sent_messages_are_well_formed(messages: Seq<MessageView>)
    ensures
        forall|i: int|
            0 <= i < wire_messages(messages).len() ==> {
                let sent = #[trigger] wire_messages(messages)[i];
                sent.content.len() > 0 && (sent.role == "user"@ || sent.role == "assistant"@)
            },
    decreases messages.len(),
{
    if messages.len() > 0 {
        law_sent_messages_are_well_formed(messages.drop_last());
        if ends_in_tool_output(messages.drop_last()) {
            lemma_wire_messages_tail(messages.drop_last());
        }
    }
}

/// Whether no message holds anything.
pub open spec fn is_silent(messages: Seq<MessageView>) -> bool {
    forall|i: int| 0 <= i < messages.len() ==> (#[trigger] messages[i]).blocks.len() == 0
}

/// Whether the first message that holds anything carries tool outputs.
pub open spec fn starts_in_tool_output(messages: Seq<MessageView>) -> bool
    decreases messages.len(),
{
    if messages.len() == 0 {
        false
    } else if is_silent(messages.drop_last()) {
        messages.last().blocks.len() > 0 && messages.last().role == MessageRole::Tool
    } else {
        starts_in_tool_output(messages.drop_last())
    }
}

proof fn lemma_silence(front: Seq<MessageView>, back: Seq<MessageView>)
    ensures
        ends_in_tool_output(front + back) == if is_silent(back) {
            ends_in_tool_output(front)
        } else {
            ends_in_tool_output(back)
        },
        is_silent(back) ==> !ends_in_tool_output(back),
    decreases back.len(),
{
    if back.len() == 0 {
        assert(front + back =~= front);
    } else {
        let rest = back.drop_last();
        lemma_silence(front, rest);
        assert((front + back).drop_last() =~= front + rest);
        assert((front + back).last() == back.last());
        if back.last().blocks.len() == 0 {
            assert(is_silent(back) <==> is_silent(rest)) by {
                if is_silent(rest) {
                    assert forall|i: int| 0 <= i < back.len() implies (
                    #[trigger] back[i]).blocks.len() == 0 by {
                        if i < rest.len() {
                            assert(rest[i] == back[i]);
                        }
                    }
                }
                if is_silent(back) {
                    assert forall|i: int| 0 <= i < rest.len() implies (
                    #[trigger] rest[i]).blocks.len() == 0 by {
                        assert(back[i] == rest[i]);
                    }
                }
            }
        } else {
            assert(back[back.len() - 1].blocks.len() > 0);
        }
    }
}

/// Two parts of a conversation are sent one behind the other, unless tool
/// outputs at the end of the first go on in the second.
pub proof fn law_parts_are_sent_apart(front: Seq<MessageView>, back: Seq<MessageView>)
    requires
        !(ends_in_tool_output(front) && starts_in_tool_output(back)),
    ensures
        wire_messages(front + back) == wire_messages(front) + wire_messages(back),
    decreases back.len(),
{
    if back.len() == 0 {
        assert(front + back =~= front);
        assert(wire_messages(front + back) =~= wire_messages(front) + wire_messages(back));
    } else {
        let rest = back.drop_last();
        let message = back.last();
        assert((front + back).drop_last() =~= front + rest);
        assert((front + back).last() == message);
        lemma_silence(front, rest);
        if is_silent(rest) {
            lemma_silent_starts(rest);
        }
        law_parts_are_sent_apart(front, rest);
        if message.blocks.len() > 0 && message.role == MessageRole::Tool && ends_in_tool_output(
            rest,
        ) {
            lemma_wire_messages_tail(rest);
        }
        assert(wire_messages(front + back) =~= wire_messages(front) + wire_messages(back));
    }
}

proof fn lemma_silent_starts(messages: Seq<MessageView>)
    requires
        is_silent(messages),
    ensures
        !starts_in_tool_output(messages),
{
    if messages.len() > 0 {
        assert(messages[messages.len() - 1].blocks.len() == 0);
        assert forall|i: int| 0 <= i < messages.drop_last().len() implies (
        #[trigger] messages.drop_last()[i]).blocks.len() == 0 by {
            assert(messages[i].blocks.len() == 0);
        }
    }
}

/// Whether a sent block carries what a block holds.
pub open spec fn carries(sent: InputBlockView, block: BlockView) -> bool {
    match (block, sent) {
        (BlockView::Text(text), InputBlockView::Text { text: carried, cache_control }) => {
            &&& carried == text
            &&& cache_control is None
        },
        (
            BlockView::ToolUse { id, name, input },
            InputBlockView::ToolUse { id: sent_id, name: sent_name, input: document },
        ) => {
            &&& sent_id == id
            &&& sent_name == name
            &&& json::json_parse(input) matches Ok(parsed) ==> document == parsed
            &&& json::json_parse(input) is Err ==> document.get("raw"@) == Some(
                JsonView::Text(input),
            )
        },
        (
            BlockView::ToolResult { tool_use_id, output, is_error, .. },
            InputBlockView::ToolResult {
                tool_use_id: sent_id,
                content,
                is_error: sent_error,
                cache_control,
            },
        ) => {
            &&& sent_id == tool_use_id
            &&& content == output
            &&& sent_error == is_error
            &&& cache_control is None
        },
        _ => false,
    }
}

proof fn lemma_raw_document(input: Seq<char>)
    ensures
        JsonView::Object(seq![("raw"@, JsonView::Text(input))]).get("raw"@) == Some(
            JsonView::Text(input),
        ),
{
    reveal_with_fuel(json::member, 2);
}

proof fn lemma_apart_keeps_every_block(messages: Seq<MessageView>)
    ensures
        all_sent_blocks(wire_messages_apart(messages)) == wire_blocks(all_blocks(messages)),
    decreases messages.len(),
{
    if messages.len() == 0 {
        assert(wire_blocks(all_blocks(messages)) =~= Seq::empty());
    } else {
        let front = messages.drop_last();
        let message = messages.last();
        lemma_apart_keeps_every_block(front);
        assert(wire_blocks(all_blocks(messages)) =~= wire_blocks(all_blocks(front)) + wire_blocks(
            message.blocks,
        ));
        if message.blocks.len() == 0 {
            assert(wire_blocks(all_blocks(messages)) =~= wire_blocks(all_blocks(front)));
        } else {
            assert(wire_messages_apart(messages).drop_last() =~= wire_messages_apart(front));
        }
    }
}

/// Every block of a conversation is sent in its place with what it holds: a text
/// with the same text, a tool call with the same identifier, tool and input, and
/// the output of a tool with the call that it answers, the output itself and
/// whether it is an error. That is so for the interactive client and for a
/// sub-agent.
pub proof fn law_sent_blocks_carry_what_blocks_hold(messages: Seq<MessageView>)
    ensures
        all_sent_blocks(wire_messages(messages)).len() == all_blocks(messages).len(),
        all_sent_blocks(wire_messages_apart(messages)).len() == all_blocks(messages).len(),
        forall|i: int|
            0 <= i < all_blocks(messages).len() ==> {
                let block = #[trigger] all_blocks(messages)[i];
                &&& carries(all_sent_blocks(wire_messages(messages))[i], block)
                &&& carries(all_sent_blocks(wire_messages_apart(messages))[i], block)
            },
{
    law_conversion_keeps_every_block(messages);
    lemma_apart_keeps_every_block(messages);
    assert forall|i: int| 0 <= i < all_blocks(messages).len() implies {
        let block = #[trigger] all_blocks(messages)[i];
        &&& carries(all_sent_blocks(wire_messages(messages))[i], block)
        &&& carries(all_sent_blocks(wire_messages_apart(messages))[i], block)
    } by {
        if let BlockView::ToolUse { input, .. } = all_blocks(messages)[i] {
            lemma_raw_document(input);
        }
    }
}

/// Who each block of a conversation comes from.
pub open spec fn block_roles(messages: Seq<MessageView>) -> Seq<MessageRole>
    decreases messages.len(),
{
    if messages.len() == 0 {
        Seq::empty()
    } else {
        block_roles(messages.drop_last()) + messages.last().blocks.map_values(
            |b: BlockView| messages.last().role,
        )
    }
}

/// The role under which each block of a sent conversation is sent.
pub open spec fn sent_roles(messages: Seq<InputMessageView>) -> Seq<Seq<char>>
    decreases messages.len(),
{
    if messages.len() == 0 {
        Seq::empty()
    } else {
        sent_roles(messages.drop_last()) + messages.last().content.map_values(
            |b: InputBlockView| messages.last().role,
        )
    }
}

/// Whether a role on the wire is that of who a block comes from: the model speaks
/// for itself, and everything else comes from the user.
pub open spec fn speaks_for(sent: Seq<char>, role: MessageRole) -> bool {
    &&& role == MessageRole::Assistant ==> sent == "assistant"@
    &&& role != MessageRole::Assistant ==> sent == "user"@
}

pub open spec fn roles_agree(sent: Seq<Seq<char>>, roles: Seq<MessageRole>) -> bool {
    &&& sent.len() == roles.len()
    &&& forall|i: int| 0 <= i < sent.len() ==> speaks_for(#[trigger] sent[i], roles[i])
}

proof fn lemma_roles_agree(messages: Seq<MessageView>)
    ensures
        roles_agree(sent_roles(wire_messages(messages)), block_roles(messages)),
        roles_agree(sent_roles(wire_messages_apart(messages)), block_roles(messages)),
    decreases messages.len(),
{
    if messages.len() > 0 {
        let front = messages.drop_last();
        let message = messages.last();
        lemma_roles_agree(front);
        let roles = message.blocks.map_values(|b: BlockView| message.role);
        let sent = wire_messages(messages);
        let done = wire_messages(front);
        if message.blocks.len() == 0 {
            assert(block_roles(messages) =~= block_roles(front));
        } else {
            if message.role == MessageRole::Tool && ends_in_tool_output(front) {
                lemma_wire_messages_tail(front);
                assert(sent.drop_last() =~= done.drop_last());
                assert(sent.last().role == "user"@);
                assert(sent_roles(sent) =~= sent_roles(done) + message.blocks.map_values(
                    |b: BlockView| "user"@,
                ));
            } else {
                assert(sent.drop_last() =~= done);
                assert(sent_roles(sent) =~= sent_roles(done) + message.blocks.map_values(
                    |b: BlockView| wire_role(message.role),
                ));
            }
            let apart = wire_messages_apart(messages);
            assert(apart.drop_last() =~= wire_messages_apart(front));
            assert(sent_roles(apart) =~= sent_roles(wire_messages_apart(front))
                + message.blocks.map_values(|b: BlockView| wire_role(message.role)));
            assert(roles.len() == message.blocks.len());
        }
    }
}

/// Every block is sent under the role of who it comes from: the model's under
/// `assistant`, and every other, a tool's among them, under `user`.
pub proof fn law_blocks_are_sent_under_their_role(messages: Seq<MessageView>, at: int)
    requires
        0 <= at < block_roles(messages).len(),
    ensures
        sent_roles(wire_messages(messages)).len() == block_roles(messages).len(),
        sent_roles(wire_messages(messages))[at] == "assistant"@ <==> block_roles(messages)[at]
            == MessageRole::Assistant,
        sent_roles(wire_messages(messages))[at] == "user"@ <==> block_roles(messages)[at]
            != MessageRole::Assistant,
        sent_roles(wire_messages_apart(messages))[at] == sent_roles(wire_messages(messages))[at],
{
    lemma_roles_agree(messages);
    reveal_strlit("assistant");
    reveal_strlit("user");
    assert("assistant"@.len() != "user"@.len());
    assert(speaks_for(sent_roles(wire_messages(messages))[at], block_roles(messages)[at]));
    assert(speaks_for(sent_roles(wire_messages_apart(messages))[at], block_roles(messages)[at]));
}

/// A message that holds something is sent as a message of its own, but for tool
/// outputs right behind tool outputs, which make no further message; a message
/// that holds nothing makes none. A sub-agent sends every message that holds
/// something by itself.
pub proof fn law_one_message_for_each(messages: Seq<MessageView>, message: MessageView)
    ensures
        wire_messages(messages.push(message)).len() == wire_messages(messages).len() + (
        if message.blocks.len() == 0 || (message.role == MessageRole::Tool && ends_in_tool_output(
            messages,
        )) {
            0nat
        } else {
            1nat
        }),
        wire_messages_apart(messages.push(message)).len() == wire_messages_apart(messages).len() + (
        if message.blocks.len() == 0 {
            0nat
        } else {
            1nat
        }),
{
    assert(messages.push(message).drop_last() =~= messages);
    if ends_in_tool_output(messages) {
        lemma_wire_messages_tail(messages);
    }
}

/// Tool outputs end a conversation exactly where the last message that holds
/// something is a tool's: messages that hold nothing change nothing.
pub proof fn law_ends_in_tool_output(messages: Seq<MessageView>, message: MessageView)
    ensures
        !ends_in_tool_output(Seq::empty()),
        message.blocks.len() == 0 ==> ends_in_tool_output(messages.push(message))
            == ends_in_tool_output(messages),
        message.blocks.len() > 0 ==> (ends_in_tool_output(messages.push(message)) <==> message.role
            == MessageRole::Tool),
{
    assert(messages.push(message).drop_last() =~= messages);
}

// ---------------------------------------------------------------------------
// Reading a turn
// ---------------------------------------------------------------------------

/// The texts of a message, one behind the other.
pub open spec fn text_of_blocks(blocks: Seq<BlockView>) -> Seq<char>
    decreases blocks.len(),
{
    if blocks.len() == 0 {
        Seq::empty()
    } else {
        match blocks.last() {
            BlockView::Text(text) => text_of_blocks(blocks.drop_last()) + text,
            _ => text_of_blocks(blocks.drop_last()),
        }
    }
}

/// The text of the last message that the model gave; empty where there is none.
pub open spec fn final_text(assistant_messages: Seq<MessageView>) -> Seq<char> {
    if assistant_messages.len() == 0 {
        Seq::empty()
    } else {
        text_of_blocks(assistant_messages.last().blocks)
    }
}

/// The text of the last message that the model gave.
pub fn final_assistant_text(assistant_messages: &Vec<ConversationMessage>) -> (r: String)
    ensures
        r@ == final_text(message_views(assistant_messages@)),
{
    let mut out = String::new();
    if assistant_messages.len() == 0 {
        return out;
    }
    let message = &assistant_messages[assistant_messages.len() - 1];
    let ghost blocks = block_views(message.blocks@);
    let mut i: usize = 0;
    assert(blocks.take(0) =~= Seq::empty());
    while i < message.blocks.len()
        invariant
            i <= message.blocks@.len(),
            blocks == block_views(message.blocks@),
            out@ == text_of_blocks(blocks.take(i as int)),
        decreases message.blocks.len() - i,
    {
        assert(blocks.take(i + 1).drop_last() =~= blocks.take(i as int));
        match &message.blocks[i] {
            ContentBlock::Text { text } => {
                out.append(text.as_str());
            },
            _ => {},
        }
        i += 1;
    }
    assert(blocks.take(i as int) =~= blocks);
    out
}

/// Whether the last message carries tool outputs.
pub open spec fn goes_on_from_tools(messages: Seq<MessageView>) -> bool {
    messages.len() > 0 && messages.last().role == MessageRole::Tool
}

/// Whether the model is expected to go on from tool outputs.
pub fn request_ends_with_tool_result(messages: &Vec<ConversationMessage>) -> (r: bool)
    ensures
        r == goes_on_from_tools(message_views(messages@)),
{
    messages.len() > 0 && messages[messages.len() - 1].role == MessageRole::Tool
}

/// The text of a turn is what its last message says: the texts of that message
/// one behind the other, whatever else stands between them.
pub proof fn law_final_text_is_the_last_message(
    messages: Seq<MessageView>,
    last: MessageView,
    first: Seq<BlockView>,
    second: Seq<BlockView>,
    said: Seq<char>,
)
    ensures
        final_text(messages.push(last)) == final_text(seq![last]),
        last.blocks == first + second ==> final_text(seq![last]) == final_text(
            seq![MessageView { blocks: first, ..last }],
        ) + final_text(seq![MessageView { blocks: second, ..last }]),
        last.blocks == seq![BlockView::Text(said)] ==> final_text(seq![last]) == said,
        last.blocks.len() == 1 && !(last.blocks[0] is Text) ==> final_text(seq![last]).len() == 0,
        final_text(Seq::empty()).len() == 0,
{
    lemma_text_of_parts(first, second);
    reveal_with_fuel(text_of_blocks, 2);
    if last.blocks.len() == 1 {
        assert(last.blocks.drop_last() =~= Seq::empty());
        assert(Seq::<char>::empty() + said =~= said);
    }
}

proof fn lemma_text_of_parts(first: Seq<BlockView>, second: Seq<BlockView>)
    ensures
        text_of_blocks(first + second) == text_of_blocks(first) + text_of_blocks(second),
    decreases second.len(),
{
    if second.len() == 0 {
        assert(first + second =~= first);
        assert(text_of_blocks(first) + text_of_blocks(second) =~= text_of_blocks(first));
    } else {
        lemma_text_of_parts(first, second.drop_last());
        assert((first + second).drop_last() =~= first + second.drop_last());
        assert((first + second).last() == second.last());
        assert(text_of_blocks(first + second) =~= text_of_blocks(first) + text_of_blocks(second));
    }
}

/// The model goes on from tools exactly where the message that came last is a
/// tool's.
pub proof fn law_goes_on_from_the_last_message(messages: Seq<MessageView>, last: MessageView)
    ensures
        goes_on_from_tools(messages.push(last)) <==> last.role == MessageRole::Tool,
        !goes_on_from_tools(Seq::empty()),
{
}

/// A text of the user, what the assistant says, and what came out of a call are
/// messages of their own role; the output of a call stays with the id and the name
/// that it belongs to.
pub proof fn law_messages_have_their_own_role(
    said: Seq<char>,
    blocks: Seq<BlockView>,
    tool_use_id: Seq<char>,
    tool_name: Seq<char>,
    output: Seq<char>,
    is_error: bool,
)
    ensures
        ({
            let message = ConversationMessage::of_user(said);
            &&& message.role is User
            &&& message.blocks.len() == 1
            &&& message.blocks[0] is Text && message.blocks[0]->Text_0 == said
        }),
        ({
            let message = ConversationMessage::of_assistant(blocks);
            &&& message.role is Assistant
            &&& message.blocks == blocks
        }),
        ({
            let message = ConversationMessage::of_tool(tool_use_id, tool_name, output, is_error);
            let block = message.blocks[0];
            &&& message.role is Tool
            &&& message.blocks.len() == 1
            &&& block is ToolResult
            &&& block->tool_use_id == tool_use_id
            &&& block->tool_name == tool_name
            &&& block->output == output
            &&& block->is_error == is_error
        }),
{
}

/// The document of an input is what was read from it, and where nothing could be
/// read, it holds the input as it is.
pub proof fn law_input_documents_hold_the_input(
    parsed: Result<Json, String>,
    input: Seq<char>,
    document: JsonView,
)
    requires
        is_input_document(parsed, input, document),
    ensures
        parsed is Ok ==> document == parsed->Ok_0.view(),
        parsed is Err ==> document.str_field("raw"@) == Some(input),
{
    if parsed is Err {
        reveal_with_fuel(crate::json::member, 2);
    }
}

} // verus!
