use vstd::prelude::*;

use crate::json::JsonValue;
use crate::text::{joined, owned, push_str};

verus! {

/// Who speaks in a chat message.
#[derive(Debug, Clone, Copy, PartialEq, Eq, Structural)]
pub enum MessageRole {
    System,
    User,
    Assistant,
    Tool,
}

/// The name of a role on the wire.
pub open spec fn role_name(role: MessageRole) -> Seq<char> {
    match role {
        MessageRole::System => "system"@,
        MessageRole::User => "user"@,
        MessageRole::Assistant => "assistant"@,
        MessageRole::Tool => "tool"@,
    }
}

/// The name of a role on the wire.
pub fn role_str(role: MessageRole) -> (r: String)
    ensures
        r@ == role_name(role),
{
    match role {
        MessageRole::System => owned("system"),
        MessageRole::User => owned("user"),
        MessageRole::Assistant => owned("assistant"),
        MessageRole::Tool => owned("tool"),
    }
}

/// An image handed to a model: inline (base64 with its media type) or by link.
#[derive(Debug)]
pub struct ImageContent {
    pub url: Option<String>,
    pub base64: Option<String>,
    pub media_type: Option<String>,
}

/// One part of a message made of several.
#[derive(Debug)]
pub enum ContentPart {
    Text { text: String },
    Image { image: ImageContent },
}

/// What a message says: plain text, or parts.
#[derive(Debug)]
pub enum MessageContent {
    Text(String),
    Parts(Vec<ContentPart>),
}

/// The function a tool call invokes, with its arguments as JSON text.
#[derive(Debug)]
pub struct FunctionCall {
    pub name: String,
    pub arguments: String,
}

/// A call of a tool that a model asks for.
#[derive(Debug)]
pub struct ToolCall {
    pub id: String,
    pub call_type: String,
    pub function: FunctionCall,
}

/// A piece of a tool call as it arrives in a stream.
#[derive(Debug)]
pub struct ToolCallDelta {
    pub index: u32,
    pub id: Option<String>,
    pub call_type: Option<String>,
    pub function_name: Option<String>,
    pub function_arguments: Option<String>,
}

/// One message of a conversation.
#[derive(Debug)]
pub struct ChatMessage {
    pub role: MessageRole,
    pub content: MessageContent,
    pub name: Option<String>,
    pub tool_call_id: Option<String>,
    pub tool_calls: Option<Vec<ToolCall>>,
}

/// A function that a model may call.
#[derive(Debug)]
pub struct FunctionDefinition {
    pub name: String,
    pub description: Option<String>,
    pub parameters: JsonValue,
}

/// A tool offered to a model.
#[derive(Debug)]
pub struct ChatTool {
    pub tool_type: String,
    pub function: FunctionDefinition,
}

/// A chat request. Sampling settings given as floating-point numbers
/// (temperature, top-p) are carried beside it by the caller.
#[derive(Debug)]
pub struct ChatRequest {
    pub model: String,
    pub messages: Vec<ChatMessage>,
    pub max_tokens: Option<u32>,
    pub stop: Option<Vec<String>>,
    pub tools: Option<Vec<ChatTool>>,
    pub tool_choice: Option<JsonValue>,
    pub response_format: Option<JsonValue>,
}

/// Token counts of a request.
#[derive(Debug, Clone, Copy, PartialEq, Eq, Structural)]
pub struct Usage {
    pub prompt_tokens: u32,
    pub completion_tokens: u32,
    pub total_tokens: u32,
}

/// One answer of a model.
#[derive(Debug)]
pub struct ChatChoice {
    pub index: u32,
    pub message: ChatMessage,
    pub finish_reason: Option<String>,
}

/// The answer to a chat request.
#[derive(Debug)]
pub struct ChatResponse {
    pub id: String,
    pub model: String,
    pub choices: Vec<ChatChoice>,
    pub usage: Option<Usage>,
}

/// What a stream event adds to the message being built.
#[derive(Debug)]
pub struct StreamDelta {
    pub role: Option<MessageRole>,
    pub content: Option<String>,
    pub tool_calls: Option<Vec<ToolCallDelta>>,
}

/// One event of a streamed answer.
#[derive(Debug)]
pub struct ChatStreamEvent {
    pub id: Option<String>,
    pub delta: Option<StreamDelta>,
    pub finish_reason: Option<String>,
    pub usage: Option<Usage>,
}

/// The text of an optional string.
pub open spec fn opt_view(o: Option<String>) -> Option<Seq<char>> {
    match o {
        Some(s) => Some(s@),
        None => None,
    }
}

/// The mathematical content of a stream delta.
pub struct DeltaData {
    pub role: Option<MessageRole>,
    pub content: Option<Seq<char>>,
    pub tool_calls: Option<Seq<ToolCallDelta>>,
}

/// The mathematical content of a stream event.
pub struct StreamEventData {
    pub id: Option<Seq<char>>,
    pub delta: Option<DeltaData>,
    pub finish_reason: Option<Seq<char>>,
    pub usage: Option<Usage>,
}

pub open spec fn stream_event_data(e: ChatStreamEvent) -> StreamEventData {
    StreamEventData {
        id: opt_view(e.id),
        delta: match e.delta {
            Some(d) => Some(DeltaData {
                role: d.role,
                content: opt_view(d.content),
                tool_calls: match d.tool_calls {
                    Some(v) => Some(v@),
                    None => None,
                },
            }),
            None => None,
        },
        finish_reason: opt_view(e.finish_reason),
        usage: e.usage,
    }
}

/// The text of the first answer, when it is plain text.
pub open spec fn response_text(r: ChatResponse) -> Option<Seq<char>> {
    if r.choices@.len() == 0 {
        None
    } else {
        match r.choices@[0].message.content {
            MessageContent::Text(t) => Some(t@),
            MessageContent::Parts(_) => None,
        }
    }
}

impl ChatResponse {
    /// The text of the first answer, when it is plain text.
    pub fn content(&self) -> (r: Option<&str>)
        ensures
            match r {
                Some(t) => response_text(*self) == Some(t@),
                None => response_text(*self) is None,
            },
    {
        if self.choices.len() == 0 {
            None
        } else {
            match &self.choices[0].message.content {
                MessageContent::Text(t) => Some(t.as_str()),
                MessageContent::Parts(_) => None,
            }
        }
    }
}

/// The texts of the text parts, in order.
pub open spec fn part_texts(parts: Seq<ContentPart>) -> Seq<Seq<char>>
    decreases parts.len(),
{
    if parts.len() == 0 {
        Seq::empty()
    } else {
        match parts.last() {
            ContentPart::Text { text } => part_texts(parts.drop_last()).push(text@),
            ContentPart::Image { .. } => part_texts(parts.drop_last()),
        }
    }
}

/// A message's content as one text: plain text as it is, parts as their texts
/// joined by newlines (images dropped).
pub open spec fn flat_text(c: MessageContent) -> Seq<char> {
    match c {
        MessageContent::Text(t) => t@,
        MessageContent::Parts(parts) => joined(part_texts(parts@), "\n"@),
    }
}

/// A message's content as one text: plain text as it is, parts as their texts
/// joined by newlines (images dropped).
pub fn flatten_content(c: &MessageContent) -> (r: String)
    ensures
        r@ == flat_text(*c),
{
    match c {
        MessageContent::Text(t) => t.clone(),
        MessageContent::Parts(parts) => {
            let mut texts: Vec<String> = Vec::new();
            let mut i: usize = 0;
            while i < parts.len()
                invariant
                    i <= parts@.len(),
                    crate::text::views(texts@) == part_texts(parts@.take(i as int)),
                decreases parts@.len() - i,
            {
                proof {
                    assert(parts@.take(i + 1).drop_last() =~= parts@.take(i as int));
                    assert(parts@.take(i + 1).last() == parts@[i as int]);
                }
                match &parts[i] {
                    ContentPart::Text { text } => {
                        let ghost prev = texts@;
                        texts.push(text.clone());
                        proof {
                            assert(texts@ == prev.push(*text));
                            assert(crate::text::views(texts@) =~= crate::text::views(prev).push(text@));
                        }
                    },
                    ContentPart::Image { .. } => {},
                }
                i = i + 1;
            }
            proof {
                assert(parts@.take(parts@.len() as int) =~= parts@);
            }
            crate::text::join(&texts, "\n")
        },
    }
}

/// An image (or several) to look at, and what to ask about it. The temperature,
/// which is floating point, is carried beside it by the caller.
#[derive(Debug)]
pub struct VisionRequest {
    pub model: String,
    pub prompt: String,
    pub images: Vec<ImageContent>,
    pub max_tokens: Option<u32>,
}

/// What a model says about images.
#[derive(Debug)]
pub struct VisionResponse {
    pub id: String,
    pub model: String,
    pub content: String,
    pub usage: Option<Usage>,
}

/// The parts of the message asking about images: the prompt, then each image.
pub open spec fn vision_parts_ok(req: VisionRequest, parts: Seq<ContentPart>) -> bool {
    &&& parts.len() == req.images@.len() + 1
    &&& parts[0] matches ContentPart::Text { text } && text@ == req.prompt@
    &&& forall|i: int| 0 <= i < req.images@.len() ==> (#[trigger] parts[i + 1]) == (ContentPart::Image { image: req.images@[i] })
}

fn clone_image(image: &ImageContent) -> (r: ImageContent)
    ensures
        r == *image,
{
    ImageContent {
        url: crate::text::clone_opt(&image.url),
        base64: crate::text::clone_opt(&image.base64),
        media_type: crate::text::clone_opt(&image.media_type),
    }
}

/// The chat request that asks about images: one user message made of the
/// prompt and the images, the model and token limit of the request, and no
/// other option.
pub fn vision_chat_request(req: &VisionRequest) -> (r: ChatRequest)
    ensures
        r.model == req.model,
        r.messages@.len() == 1,
        r.messages@[0].role == MessageRole::User,
        r.messages@[0].content matches MessageContent::Parts(parts) && vision_parts_ok(*req, parts@),
        r.messages@[0].name is None,
        r.messages@[0].tool_call_id is None,
        r.messages@[0].tool_calls is None,
        r.max_tokens == req.max_tokens,
        r.stop is None,
        r.tools is None,
        r.tool_choice is None,
        r.response_format is None,
{
    let mut parts: Vec<ContentPart> = Vec::new();
    parts.push(ContentPart::Text { text: req.prompt.clone() });
    let mut i: usize = 0;
    while i < req.images.len()
        invariant
            i <= req.images@.len(),
            parts@.len() == i + 1,
            parts@[0] matches ContentPart::Text { text } && text@ == req.prompt@,
            forall|k: int| 0 <= k < i ==> (#[trigger] parts@[k + 1]) == (ContentPart::Image { image: req.images@[k] }),
        decreases req.images@.len() - i,
    {
        parts.push(ContentPart::Image { image: clone_image(&req.images[i]) });
        i = i + 1;
    }
    let mut messages: Vec<ChatMessage> = Vec::new();
    messages.push(ChatMessage {
        role: MessageRole::User,
        content: MessageContent::Parts(parts),
        name: None,
        tool_call_id: None,
        tool_calls: None,
    });
    ChatRequest {
        model: req.model.clone(),
        messages,
        max_tokens: req.max_tokens,
        stop: None,
        tools: None,
        tool_choice: None,
        response_format: None,
    }
}

/// What a chat answer says about the images: its id, model and usage, and the
/// text of its first answer (empty when there is none).
pub fn vision_response(resp: ChatResponse) -> (r: VisionResponse)
    ensures
        r.id == resp.id,
        r.model == resp.model,
        r.usage == resp.usage,
        r.content@ == match response_text(resp) {
            Some(t) => t,
            None => Seq::<char>::empty(),
        },
{
    let content = match resp.content() {
        Some(t) => owned(t),
        None => String::new(),
    };
    VisionResponse { id: resp.id, model: resp.model, content, usage: resp.usage }
}

} // verus!
