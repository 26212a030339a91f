use vstd::prelude::*;

use crate::http::{header, header_views, HttpMethod, HttpRequest};
use crate::json::{json_parse, parse_json, JsonData, JsonValue};
use crate::llm::chat::{
    ChatChoice, ChatMessage, ChatRequest, ChatResponse, ChatStreamEvent, ChatTool, ContentPart,
    opt_view, stream_event_data, DeltaData, FunctionCall, MessageContent, MessageRole, StreamDelta,
    StreamEventData, ToolCall, Usage,
};
use crate::llm::ProviderConfig;
use crate::text::{clone_opt, clone_strings, concat, owned, push_str, str_equal};

verus! {

/// The endpoint used when none is configured.
pub open spec fn anthropic_api_base() -> Seq<char> {
    "https://api.anthropic.com/v1"@
}

/// The API version the client speaks.
pub open spec fn anthropic_api_version() -> Seq<char> {
    "2023-06-01"@
}

/// The number of tokens asked for when a request leaves it open.
pub const DEFAULT_MAX_TOKENS: u32 = 4096;

/// A client of the Anthropic messages API.
#[derive(Debug)]
pub struct AnthropicClient {
    api_key: String,
    base_url: String,
}

impl AnthropicClient {
    pub closed spec fn key(self) -> Seq<char> {
        self.api_key@
    }

    pub closed spec fn base(self) -> Seq<char> {
        self.base_url@
    }

    pub fn new(config: ProviderConfig) -> (r: Self)
        ensures
            r.key() == config.api_key@,
            r.base() == match config.base_url {
                Some(u) => u@,
                None => anthropic_api_base(),
            },
    {
        let base_url = match config.base_url {
            Some(u) => u,
            None => owned("https://api.anthropic.com/v1"),
        };
        AnthropicClient { api_key: config.api_key, base_url }
    }

    pub fn from_api_key(api_key: String) -> (r: Self)
        ensures
            r.key() == api_key@,
            r.base() == anthropic_api_base(),
    {
        AnthropicClient::new(ProviderConfig::new(api_key))
    }

    /// A request to `path` under the base URL, with the key, version and JSON
    /// content type.
    pub fn request(&self, method: HttpMethod, path: &str) -> (r: HttpRequest)
        ensures
            r.method == method,
            r.url@ == self.base() + path@,
            header_views(r.headers@) == seq![
                ("x-api-key"@, self.key()),
                ("anthropic-version"@, anthropic_api_version()),
                ("content-type"@, "application/json"@),
            ],
    {
        let mut headers: Vec<(String, String)> = Vec::new();
        headers.push(header("x-api-key", self.api_key.as_str()));
        headers.push(header("anthropic-version", "2023-06-01"));
        headers.push(header("content-type", "application/json"));
        proof {
            assert(header_views(headers@) =~= seq![
                ("x-api-key"@, self.key()),
                ("anthropic-version"@, anthropic_api_version()),
                ("content-type"@, "application/json"@),
            ]);
        }
        HttpRequest { method, url: concat(self.base_url.as_str(), path), headers }
    }
}

// ---------------------------------------------------------------------------
// Requests
// ---------------------------------------------------------------------------

/// An inline image as the API takes it.
#[derive(Debug)]
pub struct AnthropicImageSource {
    pub source_type: String,
    pub media_type: String,
    pub data: String,
}

/// One block of a message. The input of a tool use is a JSON document.
#[derive(Debug)]
pub enum AnthropicContentBlock {
    Text { text: String },
    Image { source: AnthropicImageSource },
    ToolUse { id: String, name: String, input: JsonValue },
    ToolResult { tool_use_id: String, content: String },
}

/// A message's content: text, or blocks.
#[derive(Debug)]
pub enum AnthropicContent {
    Text(String),
    Blocks(Vec<AnthropicContentBlock>),
}

#[derive(Debug)]
pub struct AnthropicMessage {
    pub role: String,
    pub content: AnthropicContent,
}

/// A tool as the API takes it.
#[derive(Debug)]
pub struct AnthropicTool {
    pub name: String,
    pub description: Option<String>,
    pub input_schema: JsonValue,
}

/// A request of the messages API. Temperature and top-p, which are floating
/// point, are added by whoever writes the request out.
#[derive(Debug)]
pub struct AnthropicRequest {
    pub model: String,
    pub max_tokens: u32,
    pub system: Option<String>,
    pub messages: Vec<AnthropicMessage>,
    pub stop_sequences: Option<Vec<String>>,
    pub tools: Option<Vec<AnthropicTool>>,
    pub stream: bool,
}

/// The mathematical content of a block.
pub enum BlockData {
    Text(Seq<char>),
    Image { media_type: Seq<char>, data: Seq<char> },
    ToolUse { id: Seq<char>, name: Seq<char>, input: JsonData },
    ToolResult { tool_use_id: Seq<char>, content: Seq<char> },
}

/// The mathematical content of a message's content.
pub enum ContentData {
    Text(Seq<char>),
    Blocks(Seq<BlockData>),
}

/// The mathematical content of a message.
pub struct MessageData {
    pub role: Seq<char>,
    pub content: ContentData,
}

/// A block by its content; an image is always inline (`base64`).
pub open spec fn block_data(b: AnthropicContentBlock) -> BlockData {
    match b {
        AnthropicContentBlock::Text { text } => BlockData::Text(text@),
        AnthropicContentBlock::Image { source } => BlockData::Image { media_type: source.media_type@, data: source.data@ },
        AnthropicContentBlock::ToolUse { id, name, input } => BlockData::ToolUse { id: id@, name: name@, input: input@ },
        AnthropicContentBlock::ToolResult { tool_use_id, content } => BlockData::ToolResult {
            tool_use_id: tool_use_id@,
            content: content@,
        },
    }
}

/// Blocks that are well formed: an image source is of type `base64`.
pub open spec fn block_ok(b: AnthropicContentBlock) -> bool {
    match b {
        AnthropicContentBlock::Image { source } => source.source_type@ == "base64"@,
        _ => true,
    }
}

pub open spec fn content_data(c: AnthropicContent) -> ContentData {
    match c {
        AnthropicContent::Text(t) => ContentData::Text(t@),
        AnthropicContent::Blocks(bs) => ContentData::Blocks(bs@.map_values(|b: AnthropicContentBlock| block_data(b))),
    }
}

pub open spec fn content_ok(c: AnthropicContent) -> bool {
    match c {
        AnthropicContent::Text(_) => true,
        AnthropicContent::Blocks(bs) => forall|i: int| 0 <= i < bs@.len() ==> #[trigger] block_ok(bs@[i]),
    }
}

pub open spec fn message_data(m: AnthropicMessage) -> MessageData {
    MessageData { role: m.role@, content: content_data(m.content) }
}

/// The blocks of a user's parts: texts, and images given inline with their
/// media type; other images are left out.
pub open spec fn part_blocks(parts: Seq<ContentPart>) -> Seq<BlockData>
    decreases parts.len(),
{
    if parts.len() == 0 {
        Seq::empty()
    } else {
        let prev = part_blocks(parts.drop_last());
        match parts.last() {
            ContentPart::Text { text } => prev.push(BlockData::Text(text@)),
            ContentPart::Image { image } => match (image.base64, image.media_type) {
                (Some(data), Some(media_type)) => prev.push(BlockData::Image { media_type: media_type@, data: data@ }),
                _ => prev,
            },
        }
    }
}

/// The input of a tool use: the call's arguments read as JSON, or `null` when
/// they are not JSON.
pub open spec fn arguments_input(arguments: Seq<char>) -> JsonData {
    match json_parse(arguments) {
        Some(d) => d,
        None => JsonData::Null,
    }
}

/// The tool uses of an assistant's calls, in order.
pub open spec fn tool_use_blocks(calls: Seq<ToolCall>) -> Seq<BlockData> {
    calls.map_values(|c: ToolCall| BlockData::ToolUse { id: c.id@, name: c.function.name@, input: arguments_input(c.function.arguments@) })
}

/// What a message of the conversation becomes, if anything: system messages
/// are taken apart, and a tool's answer needs its call's id and a text.
pub open spec fn converted_message(m: ChatMessage) -> Option<MessageData> {
    match m.role {
        MessageRole::System => None,
        MessageRole::User => Some(MessageData {
            role: "user"@,
            content: match m.content {
                MessageContent::Text(t) => ContentData::Text(t@),
                MessageContent::Parts(parts) => ContentData::Blocks(part_blocks(parts@)),
            },
        }),
        MessageRole::Assistant => Some(MessageData {
            role: "assistant"@,
            content: match m.content {
                MessageContent::Text(t) => match m.tool_calls {
                    Some(calls) => ContentData::Blocks(seq![BlockData::Text(t@)] + tool_use_blocks(calls@)),
                    None => ContentData::Text(t@),
                },
                MessageContent::Parts(_) => ContentData::Text(Seq::empty()),
            },
        }),
        MessageRole::Tool => match (m.tool_call_id, m.content) {
            (Some(id), MessageContent::Text(result)) => Some(MessageData {
                role: "user"@,
                content: ContentData::Blocks(seq![BlockData::ToolResult { tool_use_id: id@, content: result@ }]),
            }),
            _ => None,
        },
    }
}

/// The messages of a conversation as the API takes them, in order.
pub open spec fn converted_messages(msgs: Seq<ChatMessage>) -> Seq<MessageData>
    decreases msgs.len(),
{
    if msgs.len() == 0 {
        Seq::empty()
    } else {
        let prev = converted_messages(msgs.drop_last());
        match converted_message(msgs.last()) {
            Some(d) => prev.push(d),
            None => prev,
        }
    }
}

/// The system prompt: the text of the last system message given as text.
pub open spec fn system_prompt(msgs: Seq<ChatMessage>) -> Option<Seq<char>>
    decreases msgs.len(),
{
    if msgs.len() == 0 {
        None
    } else {
        match (msgs.last().role, msgs.last().content) {
            (MessageRole::System, MessageContent::Text(t)) => Some(t@),
            _ => system_prompt(msgs.drop_last()),
        }
    }
}

/// A tool as offered, and as the API takes it, agree.
pub open spec fn tool_converted(t: ChatTool, a: AnthropicTool) -> bool {
    &&& a.name@ == t.function.name@
    &&& a.description == t.function.description
    &&& a.input_schema@ == t.function.parameters@
}

fn convert_parts(parts: &Vec<ContentPart>) -> (r: Vec<AnthropicContentBlock>)
    ensures
        r@.map_values(|b: AnthropicContentBlock| block_data(b)) == part_blocks(parts@),
        forall|i: int| 0 <= i < r@.len() ==> #[trigger] block_ok(r@[i]),
{
    let mut blocks: Vec<AnthropicContentBlock> = Vec::new();
    let mut i: usize = 0;
    while i < parts.len()
        invariant
            i <= parts@.len(),
            blocks@.map_values(|b: AnthropicContentBlock| block_data(b)) == part_blocks(parts@.take(i as int)),
            forall|k: int| 0 <= k < blocks@.len() ==> #[trigger] block_ok(blocks@[k]),
        decreases parts@.len() - i,
    {
        proof {
            assert(parts@.take(i + 1).drop_last() =~= parts@.take(i as int));
            assert(parts@.take(i + 1).last() == parts@[i as int]);
        }
        let ghost prev = blocks@;
        match &parts[i] {
            ContentPart::Text { text } => {
                let b = AnthropicContentBlock::Text { text: text.clone() };
                blocks.push(b);
                proof {
                    assert(blocks@ == prev.push(b));
                    assert(blocks@.map_values(|b: AnthropicContentBlock| block_data(b))
                        =~= prev.map_values(|b: AnthropicContentBlock| block_data(b)).push(block_data(b)));
                }
            },
            ContentPart::Image { image } => {
                match (&image.base64, &image.media_type) {
                    (Some(data), Some(media_type)) => {
                        let b = AnthropicContentBlock::Image {
                            source: AnthropicImageSource {
                                source_type: owned("base64"),
                                media_type: media_type.clone(),
                                data: data.clone(),
                            },
                        };
                        blocks.push(b);
                        proof {
                            assert(blocks@ == prev.push(b));
                            assert(blocks@.map_values(|b: AnthropicContentBlock| block_data(b))
                                =~= prev.map_values(|b: AnthropicContentBlock| block_data(b)).push(block_data(b)));
                        }
                    },
                    _ => {},
                }
            },
        }
        i = i + 1;
    }
    proof {
        assert(parts@.take(parts@.len() as int) =~= parts@);
    }
    blocks
}

fn tool_use_list(text: &String, calls: &Vec<ToolCall>) -> (r: Vec<AnthropicContentBlock>)
    ensures
        r@.map_values(|b: AnthropicContentBlock| block_data(b)) == seq![BlockData::Text(text@)] + tool_use_blocks(calls@),
        forall|i: int| 0 <= i < r@.len() ==> #[trigger] block_ok(r@[i]),
{
    let mut blocks: Vec<AnthropicContentBlock> = Vec::new();
    blocks.push(AnthropicContentBlock::Text { text: text.clone() });
    let mut i: usize = 0;
    while i < calls.len()
        invariant
            i <= calls@.len(),
            blocks@.map_values(|b: AnthropicContentBlock| block_data(b)) == seq![BlockData::Text(text@)] + tool_use_blocks(calls@.take(i as int)),
            forall|k: int| 0 <= k < blocks@.len() ==> #[trigger] block_ok(blocks@[k]),
        decreases calls@.len() - i,
    {
        let ghost prev = blocks@;
        let c = &calls[i];
        let input = match parse_json(c.function.arguments.as_str()) {
            Some(v) => v,
            None => JsonValue::Null,
        };
        let b = AnthropicContentBlock::ToolUse { id: c.id.clone(), name: c.function.name.clone(), input };
        blocks.push(b);
        proof {
            assert(blocks@ == prev.push(b));
            assert(tool_use_blocks(calls@.take(i + 1)) =~= tool_use_blocks(calls@.take(i as int)).push(block_data(b)));
            assert(blocks@.map_values(|b: AnthropicContentBlock| block_data(b))
                =~= prev.map_values(|b: AnthropicContentBlock| block_data(b)).push(block_data(b)));
        }
        i = i + 1;
    }
    proof {
        assert(calls@.take(calls@.len() as int) =~= calls@);
    }
    blocks
}

/// How each message of a conversation is sent: a system message is not sent
/// as a message; a user's text is sent as that text and a user's parts as
/// their blocks; an assistant's text without tool calls is sent as exactly
/// that text, with tool calls as blocks made of the text followed by one tool
/// use per call (its id, name, and arguments read as JSON, or `null`), and an
/// assistant's parts as empty text; a tool's text answer to a call is sent by
/// the user as one tool result for that call, and any other tool message is
/// dropped.
pub proof fn law_converted_message(m: ChatMessage, t: String, calls: Vec<ToolCall>, id: String, ps: Vec<ContentPart>)
    ensures
        m.role == MessageRole::System ==> converted_message(m) is None,
        (m.role == MessageRole::User && m.content == MessageContent::Text(t))
            ==> converted_message(m) == Some(MessageData { role: "user"@, content: ContentData::Text(t@) }),
        (m.role == MessageRole::User && m.content == MessageContent::Parts(ps))
            ==> converted_message(m) == Some(MessageData { role: "user"@, content: ContentData::Blocks(part_blocks(ps@)) }),
        (m.role == MessageRole::Assistant && m.content == MessageContent::Text(t) && m.tool_calls is None)
            ==> converted_message(m) == Some(MessageData { role: "assistant"@, content: ContentData::Text(t@) }),
        (m.role == MessageRole::Assistant && m.content == MessageContent::Text(t) && m.tool_calls == Some(calls))
            ==> ({
                &&& converted_message(m) is Some
                &&& converted_message(m)->0.role == "assistant"@
                &&& converted_message(m)->0.content is Blocks
                &&& converted_message(m)->0.content->Blocks_0.len() == calls@.len() + 1
                &&& converted_message(m)->0.content->Blocks_0[0] == BlockData::Text(t@)
                &&& forall|i: int| 0 <= i < calls@.len() ==> #[trigger] converted_message(m)->0.content->Blocks_0[i + 1] == (BlockData::ToolUse {
                    id: calls@[i].id@,
                    name: calls@[i].function.name@,
                    input: match json_parse(calls@[i].function.arguments@) { Some(d) => d, None => JsonData::Null },
                })
            }),
        (m.role == MessageRole::Assistant && m.content is Parts)
            ==> converted_message(m) == Some(MessageData { role: "assistant"@, content: ContentData::Text(Seq::empty()) }),
        (m.role == MessageRole::Tool && m.tool_call_id == Some(id) && m.content == MessageContent::Text(t))
            ==> converted_message(m) == Some(MessageData {
                role: "user"@,
                content: ContentData::Blocks(seq![BlockData::ToolResult { tool_use_id: id@, content: t@ }]),
            }),
        (m.role == MessageRole::Tool && (m.tool_call_id is None || m.content is Parts)) ==> converted_message(m) is None,
{
    if m.role == MessageRole::Assistant && m.content == MessageContent::Text(t) && m.tool_calls == Some(calls) {
        let bs = seq![BlockData::Text(t@)] + tool_use_blocks(calls@);
        assert forall|i: int| 0 <= i < calls@.len() implies #[trigger] bs[i + 1] == (BlockData::ToolUse {
            id: calls@[i].id@,
            name: calls@[i].function.name@,
            input: match json_parse(calls@[i].function.arguments@) { Some(d) => d, None => JsonData::Null },
        }) by {
            assert(bs[i + 1] == tool_use_blocks(calls@)[i]);
        };
    }
}

/// A user's parts are sent block by block, in order: a text part as a text
/// block, an image given inline with its media type as an image block, any
/// other image not at all.
pub proof fn law_part_blocks(a: Seq<ContentPart>, b: Seq<ContentPart>, p: ContentPart, text: String, image: crate::llm::chat::ImageContent, data: String, media: String)
    ensures
        part_blocks(a + b) == part_blocks(a) + part_blocks(b),
        p == (ContentPart::Text { text }) ==> part_blocks(seq![p]) == seq![BlockData::Text(text@)],
        (p == (ContentPart::Image { image }) && image.base64 == Some(data) && image.media_type == Some(media))
            ==> part_blocks(seq![p]) == seq![BlockData::Image { media_type: media@, data: data@ }],
        (p == (ContentPart::Image { image }) && (image.base64 is None || image.media_type is None))
            ==> part_blocks(seq![p]) == Seq::<BlockData>::empty(),
    decreases b.len(),
{
    if b.len() == 0 {
        assert(a + b =~= a);
        assert(part_blocks(a) + part_blocks(b) =~= part_blocks(a));
    } else {
        law_part_blocks(a, b.drop_last(), p, text, image, data, media);
        assert((a + b).drop_last() =~= a + b.drop_last());
        assert((a + b).last() == b.last());
        let rest = part_blocks(a) + part_blocks(b.drop_last());
        assert(part_blocks(a) + part_blocks(b) =~= match b.last() {
            ContentPart::Text { text } => rest.push(BlockData::Text(text@)),
            ContentPart::Image { image } => match (image.base64, image.media_type) {
                (Some(data), Some(media_type)) => rest.push(BlockData::Image { media_type: media_type@, data: data@ }),
                _ => rest,
            },
        });
    }
    let one = seq![p];
    assert(one.drop_last() =~= Seq::<ContentPart>::empty());
    assert(part_blocks(Seq::<ContentPart>::empty()) == Seq::<BlockData>::empty());
    assert(part_blocks(one) =~= match p {
        ContentPart::Text { text } => seq![BlockData::Text(text@)],
        ContentPart::Image { image } => match (image.base64, image.media_type) {
            (Some(data), Some(media_type)) => seq![BlockData::Image { media_type: media_type@, data: data@ }],
            _ => Seq::empty(),
        },
    });
}

/// The messages of a conversation are sent one by one, in order: a
/// conversation put together from two parts is sent as the first part's
/// messages followed by the second's, and a single message as what it
/// becomes, if anything.
pub proof fn law_converted_messages(a: Seq<ChatMessage>, b: Seq<ChatMessage>, m: ChatMessage)
    ensures
        converted_messages(a + b) == converted_messages(a) + converted_messages(b),
        converted_messages(seq![m]) == match converted_message(m) {
            Some(d) => seq![d],
            None => Seq::<MessageData>::empty(),
        },
    decreases b.len(),
{
    if b.len() == 0 {
        assert(a + b =~= a);
        assert(converted_messages(a) + converted_messages(b) =~= converted_messages(a));
    } else {
        law_converted_messages(a, b.drop_last(), m);
        assert((a + b).drop_last() =~= a + b.drop_last());
        assert((a + b).last() == b.last());
        let rest = converted_messages(a) + converted_messages(b.drop_last());
        assert(converted_messages(a) + converted_messages(b) =~= match converted_message(b.last()) {
            Some(d) => rest.push(d),
            None => rest,
        });
    }
    let one = seq![m];
    assert(one.drop_last() =~= Seq::<ChatMessage>::empty());
    assert(converted_messages(Seq::<ChatMessage>::empty()) == Seq::<MessageData>::empty());
    assert(converted_messages(one) =~= match converted_message(m) {
        Some(d) => seq![d],
        None => Seq::<MessageData>::empty(),
    });
}

/// What a sent message stands for is what it holds: its role, its text, or
/// each of its blocks with every field as given.
pub proof fn law_message_data(m: AnthropicMessage, s: String, bs: Vec<AnthropicContentBlock>, b: AnthropicContentBlock)
    ensures
        message_data(m).role == m.role@,
        message_data(m).content == content_data(m.content),
        content_data(AnthropicContent::Text(s)) == ContentData::Text(s@),
        content_data(AnthropicContent::Blocks(bs)) is Blocks,
        content_data(AnthropicContent::Blocks(bs))->Blocks_0.len() == bs@.len(),
        forall|i: int| 0 <= i < bs@.len() ==> #[trigger] content_data(AnthropicContent::Blocks(bs))->Blocks_0[i] == block_data(bs@[i]),
        b matches AnthropicContentBlock::Text { text } ==> block_data(b) == BlockData::Text(text@),
        b matches AnthropicContentBlock::ToolUse { id, name, input }
            ==> block_data(b) == (BlockData::ToolUse { id: id@, name: name@, input: input@ }),
        b matches AnthropicContentBlock::ToolResult { tool_use_id, content }
            ==> block_data(b) == (BlockData::ToolResult { tool_use_id: tool_use_id@, content: content@ }),
        b matches AnthropicContentBlock::Image { source }
            ==> block_data(b) == (BlockData::Image { media_type: source.media_type@, data: source.data@ }),
{
}

/// Whether a message is a system message given as text.
pub open spec fn is_system_text(m: ChatMessage) -> bool {
    m.role == MessageRole::System && m.content is Text
}

/// The system prompt is the text of the last system message given as text:
/// when there is one, it is that message's text and no system text comes
/// after it; when there is none, no message is a system text.
pub proof fn law_system_prompt(msgs: Seq<ChatMessage>)
    ensures
        system_prompt(msgs) is None <==> (forall|i: int| 0 <= i < msgs.len() ==> !is_system_text(#[trigger] msgs[i])),
        system_prompt(msgs) is Some ==> exists|i: int| 0 <= i < msgs.len() && #[trigger] is_system_text(msgs[i])
            && msgs[i].content == MessageContent::Text(msgs[i].content->Text_0)
            && system_prompt(msgs) == Some(msgs[i].content->Text_0@)
            && forall|j: int| i < j < msgs.len() ==> !is_system_text(#[trigger] msgs[j]),
    decreases msgs.len(),
{
    if msgs.len() > 0 {
        let prev = msgs.drop_last();
        law_system_prompt(prev);
        let last = msgs.len() - 1;
        assert(msgs[last] == msgs.last());
        assert forall|i: int| 0 <= i < prev.len() implies prev[i] == msgs[i] by {};
        if is_system_text(msgs.last()) {
            assert(is_system_text(msgs[last]));
        } else {
            if system_prompt(prev) is Some {
                let i = choose|i: int| 0 <= i < prev.len() && #[trigger] is_system_text(prev[i])
                    && prev[i].content == MessageContent::Text(prev[i].content->Text_0)
                    && system_prompt(prev) == Some(prev[i].content->Text_0@)
                    && forall|j: int| i < j < prev.len() ==> !is_system_text(#[trigger] prev[j]);
                assert(msgs[i] == prev[i]);
                assert forall|j: int| i < j < msgs.len() implies !is_system_text(#[trigger] msgs[j]) by {
                    if j < prev.len() {
                        assert(msgs[j] == prev[j]);
                    }
                };
            } else {
                assert forall|i: int| 0 <= i < msgs.len() implies !is_system_text(#[trigger] msgs[i]) by {
                    if i < prev.len() {
                        assert(msgs[i] == prev[i]);
                    }
                };
            }
        }
    }
}

/// The message that one message of the conversation becomes, if any.
fn convert_message(m: &ChatMessage) -> (r: Option<AnthropicMessage>)
    ensures
        match r {
            Some(a) => converted_message(*m) == Some(message_data(a)) && content_ok(a.content),
            None => converted_message(*m) is None,
        },
{
    match m.role {
        MessageRole::System => None,
        MessageRole::User => {
            let content = match &m.content {
                MessageContent::Text(t) => AnthropicContent::Text(t.clone()),
                MessageContent::Parts(parts) => AnthropicContent::Blocks(convert_parts(parts)),
            };
            Some(AnthropicMessage { role: owned("user"), content })
        },
        MessageRole::Assistant => {
            let content = match &m.content {
                MessageContent::Text(t) => match &m.tool_calls {
                    Some(calls) => AnthropicContent::Blocks(tool_use_list(t, calls)),
                    None => AnthropicContent::Text(t.clone()),
                },
                MessageContent::Parts(_) => AnthropicContent::Text(String::new()),
            };
            Some(AnthropicMessage { role: owned("assistant"), content })
        },
        MessageRole::Tool => match (&m.tool_call_id, &m.content) {
            (Some(id), MessageContent::Text(result)) => {
                let mut blocks: Vec<AnthropicContentBlock> = Vec::new();
                blocks.push(AnthropicContentBlock::ToolResult { tool_use_id: id.clone(), content: result.clone() });
                proof {
                    assert(blocks@.map_values(|b: AnthropicContentBlock| block_data(b))
                        =~= seq![BlockData::ToolResult { tool_use_id: id@, content: result@ }]);
                }
                Some(AnthropicMessage { role: owned("user"), content: AnthropicContent::Blocks(blocks) })
            },
            _ => None,
        },
    }
}

fn convert_tools(tools: &Vec<ChatTool>) -> (r: Vec<AnthropicTool>)
    ensures
        r@.len() == tools@.len(),
        forall|i: int| 0 <= i < tools@.len() ==> tool_converted(#[trigger] tools@[i], r@[i]),
{
    let mut out: Vec<AnthropicTool> = Vec::new();
    let mut i: usize = 0;
    while i < tools.len()
        invariant
            i <= tools@.len(),
            out@.len() == i,
            forall|k: int| 0 <= k < i ==> tool_converted(#[trigger] tools@[k], out@[k]),
        decreases tools@.len() - i,
    {
        let t = &tools[i];
        out.push(AnthropicTool {
            name: t.function.name.clone(),
            description: t.function.description.clone(),
            input_schema: t.function.parameters.duplicate(),
        });
        i = i + 1;
    }
    out
}

/// A chat request as the messages API takes it: system messages become the
/// system prompt (the last one given as text), the other messages are
/// converted in order, the token limit defaults to 4096, and it is not
/// streamed.
pub fn convert_request(request: &ChatRequest) -> (r: AnthropicRequest)
    ensures
        r.model@ == request.model@,
        r.max_tokens == match request.max_tokens {
            Some(n) => n,
            None => DEFAULT_MAX_TOKENS,
        },
        match r.system {
            Some(s) => system_prompt(request.messages@) == Some(s@),
            None => system_prompt(request.messages@) is None,
        },
        r.messages@.map_values(|m: AnthropicMessage| message_data(m)) == converted_messages(request.messages@),
        forall|i: int| 0 <= i < r.messages@.len() ==> #[trigger] content_ok(r.messages@[i].content),
        match (request.stop, r.stop_sequences) {
            (None, None) => true,
            (Some(a), Some(b)) => b@ == a@,
            _ => false,
        },
        match (request.tools, r.tools) {
            (None, None) => true,
            (Some(ts), Some(ats)) => ats@.len() == ts@.len() && forall|i: int|
                0 <= i < ts@.len() ==> tool_converted(#[trigger] ts@[i], ats@[i]),
            _ => false,
        },
        !r.stream,
{
    let mut system: Option<String> = None;
    let mut messages: Vec<AnthropicMessage> = Vec::new();
    let mut i: usize = 0;
    while i < request.messages.len()
        invariant
            i <= request.messages@.len(),
            messages@.map_values(|m: AnthropicMessage| message_data(m)) == converted_messages(request.messages@.take(i as int)),
            forall|k: int| 0 <= k < messages@.len() ==> #[trigger] content_ok(messages@[k].content),
            match system {
                Some(s) => system_prompt(request.messages@.take(i as int)) == Some(s@),
                None => system_prompt(request.messages@.take(i as int)) is None,
            },
        decreases request.messages@.len() - i,
    {
        let m = &request.messages[i];
        proof {
            assert(request.messages@.take(i + 1).drop_last() =~= request.messages@.take(i as int));
            assert(request.messages@.take(i + 1).last() == request.messages@[i as int]);
        }
        match (m.role, &m.content) {
            (MessageRole::System, MessageContent::Text(t)) => {
                system = Some(t.clone());
            },
            _ => {},
        }
        let ghost prev = messages@;
        match convert_message(m) {
            Some(a) => {
                messages.push(a);
                proof {
                    assert(messages@ == prev.push(a));
                    assert(messages@.map_values(|m: AnthropicMessage| message_data(m))
                        =~= prev.map_values(|m: AnthropicMessage| message_data(m)).push(message_data(a)));
                }
            },
            None => {},
        }
        i = i + 1;
    }
    proof {
        assert(request.messages@.take(request.messages@.len() as int) =~= request.messages@);
    }
    let tools = match &request.tools {
        Some(ts) => Some(convert_tools(ts)),
        None => None,
    };
    let max_tokens = match request.max_tokens {
        Some(n) => n,
        None => DEFAULT_MAX_TOKENS,
    };
    AnthropicRequest {
        model: request.model.clone(),
        max_tokens,
        system,
        messages,
        stop_sequences: match &request.stop {
            Some(v) => Some(clone_strings(v)),
            None => None,
        },
        tools,
        stream: false,
    }
}

// ---------------------------------------------------------------------------
// Responses
// ---------------------------------------------------------------------------

/// One block of an answer. The input of a tool use is its JSON text.
#[derive(Debug)]
pub enum AnthropicResponseContent {
    Text { text: String },
    ToolUse { id: String, name: String, input: String },
}

#[derive(Debug)]
pub struct AnthropicUsage {
    pub input_tokens: u32,
    pub output_tokens: u32,
}

/// An answer of the messages API.
#[derive(Debug)]
pub struct AnthropicResponse {
    pub id: String,
    pub model: String,
    pub content: Vec<AnthropicResponseContent>,
    pub stop_reason: Option<String>,
    pub usage: AnthropicUsage,
}

/// The texts of an answer's text blocks, one after the other.
pub open spec fn answer_text(content: Seq<AnthropicResponseContent>) -> Seq<char>
    decreases content.len(),
{
    if content.len() == 0 {
        Seq::empty()
    } else {
        match content.last() {
            AnthropicResponseContent::Text { text } => answer_text(content.drop_last()) + text@,
            AnthropicResponseContent::ToolUse { .. } => answer_text(content.drop_last()),
        }
    }
}

/// The tool uses of an answer, in order: id, name and input text.
pub open spec fn answer_tool_uses(content: Seq<AnthropicResponseContent>) -> Seq<(Seq<char>, Seq<char>, Seq<char>)>
    decreases content.len(),
{
    if content.len() == 0 {
        Seq::empty()
    } else {
        match content.last() {
            AnthropicResponseContent::Text { .. } => answer_tool_uses(content.drop_last()),
            AnthropicResponseContent::ToolUse { id, name, input } => answer_tool_uses(content.drop_last()).push((id@, name@, input@)),
        }
    }
}

/// A tool call by its id, name and arguments; it is a call of a function.
pub open spec fn call_data(c: ToolCall) -> (Seq<char>, Seq<char>, Seq<char>) {
    (c.id@, c.function.name@, c.function.arguments@)
}

pub open spec fn is_function_call(c: ToolCall) -> bool {
    c.call_type@ == "function"@
}

/// An answer as a chat response: one choice, at index 0, from the assistant,
/// whose text is that of all text blocks and whose tool calls are the tool
/// uses (none given when there are none); the usage adds both counts.
pub fn convert_response(resp: AnthropicResponse) -> (r: ChatResponse)
    requires
        resp.usage.input_tokens + resp.usage.output_tokens <= u32::MAX,
    ensures
        r.id == resp.id,
        r.model == resp.model,
        r.choices@.len() == 1,
        r.choices@[0].index == 0,
        r.choices@[0].finish_reason == resp.stop_reason,
        r.choices@[0].message.role == MessageRole::Assistant,
        r.choices@[0].message.content matches MessageContent::Text(t) && t@ == answer_text(resp.content@),
        r.choices@[0].message.name is None,
        r.choices@[0].message.tool_call_id is None,
        match r.choices@[0].message.tool_calls {
            None => answer_tool_uses(resp.content@).len() == 0,
            Some(calls) => calls@.len() > 0
                && calls@.map_values(|c: ToolCall| call_data(c)) == answer_tool_uses(resp.content@)
                && forall|i: int| 0 <= i < calls@.len() ==> #[trigger] is_function_call(calls@[i]),
        },
        r.usage == Some(Usage {
            prompt_tokens: resp.usage.input_tokens,
            completion_tokens: resp.usage.output_tokens,
            total_tokens: (resp.usage.input_tokens + resp.usage.output_tokens) as u32,
        }),
{
    let mut text = String::new();
    let mut calls: Vec<ToolCall> = Vec::new();
    let mut i: usize = 0;
    while i < resp.content.len()
        invariant
            i <= resp.content@.len(),
            text@ == answer_text(resp.content@.take(i as int)),
            calls@.map_values(|c: ToolCall| call_data(c)) == answer_tool_uses(resp.content@.take(i as int)),
            forall|k: int| 0 <= k < calls@.len() ==> #[trigger] is_function_call(calls@[k]),
        decreases resp.content@.len() - i,
    {
        proof {
            assert(resp.content@.take(i + 1).drop_last() =~= resp.content@.take(i as int));
            assert(resp.content@.take(i + 1).last() == resp.content@[i as int]);
        }
        match &resp.content[i] {
            AnthropicResponseContent::Text { text: t } => {
                push_str(&mut text, t.as_str());
            },
            AnthropicResponseContent::ToolUse { id, name, input } => {
                let ghost prev = calls@;
                let c = ToolCall {
                    id: id.clone(),
                    call_type: owned("function"),
                    function: FunctionCall { name: name.clone(), arguments: input.clone() },
                };
                calls.push(c);
                proof {
                    assert(calls@ == prev.push(c));
                    assert(calls@.map_values(|c: ToolCall| call_data(c)) =~= prev.map_values(|c: ToolCall| call_data(c)).push(call_data(c)));
                }
            },
        }
        i = i + 1;
    }
    proof {
        assert(resp.content@.take(resp.content@.len() as int) =~= resp.content@);
    }
    let tool_calls = if calls.len() == 0 {
        None
    } else {
        Some(calls)
    };
    let usage = Usage {
        prompt_tokens: resp.usage.input_tokens,
        completion_tokens: resp.usage.output_tokens,
        total_tokens: resp.usage.input_tokens + resp.usage.output_tokens,
    };
    let message = ChatMessage {
        role: MessageRole::Assistant,
        content: MessageContent::Text(text),
        name: None,
        tool_call_id: None,
        tool_calls,
    };
    let mut choices: Vec<ChatChoice> = Vec::new();
    choices.push(ChatChoice { index: 0, message, finish_reason: resp.stop_reason });
    ChatResponse { id: resp.id, model: resp.model, choices, usage: Some(usage) }
}

// ---------------------------------------------------------------------------
// Streams
// ---------------------------------------------------------------------------

#[derive(Debug)]
pub struct AnthropicStreamDelta {
    pub text: Option<String>,
    pub stop_reason: Option<String>,
}

#[derive(Debug)]
pub struct AnthropicStreamUsage {
    pub output_tokens: u32,
}

/// An event of a streamed answer, as read from a data line.
#[derive(Debug)]
pub struct AnthropicStreamEvent {
    pub event_type: String,
    pub delta: Option<AnthropicStreamDelta>,
    pub usage: Option<AnthropicStreamUsage>,
}

/// What an event means for the chat stream, if anything: a piece of text, the
/// end of the message, or the final reason and count.
pub open spec fn stream_meaning(e: AnthropicStreamEvent) -> Option<StreamEventData> {
    if e.event_type@ == "content_block_delta"@ {
        match e.delta {
            Some(d) => Some(StreamEventData {
                id: None,
                delta: Some(DeltaData { role: None, content: opt_view(d.text), tool_calls: None }),
                finish_reason: None,
                usage: None,
            }),
            None => None,
        }
    } else if e.event_type@ == "message_stop"@ {
        Some(StreamEventData { id: None, delta: None, finish_reason: Some("stop"@), usage: None })
    } else if e.event_type@ == "message_delta"@ {
        Some(StreamEventData {
            id: None,
            delta: None,
            finish_reason: match e.delta {
                Some(d) => opt_view(d.stop_reason),
                None => None,
            },
            usage: match e.usage {
                Some(u) => Some(Usage { prompt_tokens: 0, completion_tokens: u.output_tokens, total_tokens: u.output_tokens }),
                None => None,
            },
        })
    } else {
        None
    }
}

/// What one event means for the chat stream, if anything.
pub fn stream_event(e: &AnthropicStreamEvent) -> (r: Option<ChatStreamEvent>)
    ensures
        match r {
            Some(ev) => stream_meaning(*e) == Some(stream_event_data(ev)),
            None => stream_meaning(*e) is None,
        },
{
    if str_equal(e.event_type.as_str(), "content_block_delta") {
        match &e.delta {
            Some(d) => Some(ChatStreamEvent {
                id: None,
                delta: Some(StreamDelta { role: None, content: clone_opt(&d.text), tool_calls: None }),
                finish_reason: None,
                usage: None,
            }),
            None => None,
        }
    } else if str_equal(e.event_type.as_str(), "message_stop") {
        Some(ChatStreamEvent { id: None, delta: None, finish_reason: Some(owned("stop")), usage: None })
    } else if str_equal(e.event_type.as_str(), "message_delta") {
        let finish_reason = match &e.delta {
            Some(d) => clone_opt(&d.stop_reason),
            None => None,
        };
        let usage = match &e.usage {
            Some(u) => Some(Usage { prompt_tokens: 0, completion_tokens: u.output_tokens, total_tokens: u.output_tokens }),
            None => None,
        };
        Some(ChatStreamEvent { id: None, delta: None, finish_reason, usage })
    } else {
        None
    }
}

/// The first meaningful event among the data lines of a chunk, each read as an
/// event (`None` for a line that is not one).
pub open spec fn first_meaning(events: Seq<Option<AnthropicStreamEvent>>) -> Option<StreamEventData>
    decreases events.len(),
{
    if events.len() == 0 {
        None
    } else {
        match events[0] {
            Some(e) => match stream_meaning(e) {
                Some(d) => Some(d),
                None => first_meaning(events.drop_first()),
            },
            None => first_meaning(events.drop_first()),
        }
    }
}

/// What a chunk of the stream gives: the first of its data lines that reads as
/// an event with a meaning; `events` holds, for each data line in order
/// (`crate::llm::sse::data_payloads`), the event it reads as, if any.
pub fn parse_anthropic_sse(events: &Vec<Option<AnthropicStreamEvent>>) -> (r: Option<ChatStreamEvent>)
    ensures
        match r {
            Some(ev) => first_meaning(events@) == Some(stream_event_data(ev)),
            None => first_meaning(events@) is None,
        },
{
    let mut i: usize = 0;
    proof {
        assert(events@.skip(0) =~= events@);
    }
    while i < events.len()
        invariant
            i <= events@.len(),
            first_meaning(events@) == first_meaning(events@.skip(i as int)),
        decreases events@.len() - i,
    {
        proof {
            assert(events@.skip(i as int)[0] == events@[i as int]);
            assert(events@.skip(i as int).drop_first() =~= events@.skip(i + 1));
        }
        match &events[i] {
            Some(ev) => {
                match stream_event(ev) {
                    Some(out) => {
                        return Some(out);
                    },
                    None => {},
                }
            },
            None => {},
        }
        i = i + 1;
    }
    None
}

} // verus!
