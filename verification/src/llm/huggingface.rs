use vstd::prelude::*;

use crate::error::Error;
use crate::http::{header_views, HttpMethod, HttpRequest};
use crate::llm::chat::{
    flat_text, flatten_content, role_name, role_str, ChatChoice, ChatMessage, ChatRequest, ChatResponse,
    MessageContent, MessageRole, Usage,
};
use crate::llm::ProviderConfig;
use crate::text::{clone_opt, concat, owned};

verus! {

/// The endpoint used when none is configured.
pub open spec fn hf_api_base() -> Seq<char> {
    "https://api-inference.huggingface.co"@
}

/// A client of the Hugging Face inference API.
#[derive(Debug)]
pub struct HuggingFaceClient {
    api_key: String,
    base_url: String,
}

impl HuggingFaceClient {
    pub closed spec fn key(self) -> Seq<char> {
        self.api_key@
    }

    pub closed spec fn base(self) -> Seq<char> {
        self.base_url@
    }

    pub fn new(config: ProviderConfig) -> (r: Self)
        ensures
            r.key() == config.api_key@,
            r.base() == match config.base_url {
                Some(u) => u@,
                None => hf_api_base(),
            },
    {
        let base_url = match config.base_url {
            Some(u) => u,
            None => owned("https://api-inference.huggingface.co"),
        };
        HuggingFaceClient { api_key: config.api_key, base_url }
    }

    pub fn from_api_key(api_key: String) -> (r: Self)
        ensures
            r.key() == api_key@,
            r.base() == hf_api_base(),
    {
        HuggingFaceClient::new(ProviderConfig::new(api_key))
    }

    /// A request to `path` under the base URL, authorized by the key.
    pub fn request(&self, method: HttpMethod, path: &str) -> (r: HttpRequest)
        ensures
            r.method == method,
            r.url@ == self.base() + path@,
            header_views(r.headers@) == seq![("Authorization"@, "Bearer "@ + self.key())],
    {
        let mut headers: Vec<(String, String)> = Vec::new();
        headers.push((owned("Authorization"), concat("Bearer ", self.api_key.as_str())));
        proof {
            assert(header_views(headers@) =~= seq![("Authorization"@, "Bearer "@ + self.key())]);
        }
        HttpRequest { method, url: concat(self.base_url.as_str(), path), headers }
    }
}

/// The path of a model's embedding endpoint: `/models/<model>`.
pub fn embedding_path(model: &str) -> (r: String)
    ensures
        r@ == "/models/"@ + model@,
{
    concat("/models/", model)
}

/// A message as the inference API takes it: a role and one text.
#[derive(Debug)]
pub struct HFMessage {
    pub role: String,
    pub content: String,
}

/// The role and text of a message as the inference API takes it.
pub open spec fn hf_message_data(m: ChatMessage) -> (Seq<char>, Seq<char>) {
    (role_name(m.role), flat_text(m.content))
}

pub open spec fn hf_message_view(m: HFMessage) -> (Seq<char>, Seq<char>) {
    (m.role@, m.content@)
}

/// The messages of a conversation as the inference API takes them: each with
/// its role's name and its text (the text parts joined by newlines).
pub fn convert_messages(messages: &Vec<ChatMessage>) -> (r: Vec<HFMessage>)
    ensures
        r@.map_values(|m: HFMessage| hf_message_view(m)) == messages@.map_values(|m: ChatMessage| hf_message_data(m)),
{
    let mut out: Vec<HFMessage> = Vec::new();
    let mut i: usize = 0;
    while i < messages.len()
        invariant
            i <= messages@.len(),
            out@.map_values(|m: HFMessage| hf_message_view(m)) == messages@.take(i as int).map_values(|m: ChatMessage| hf_message_data(m)),
        decreases messages@.len() - i,
    {
        let ghost prev = out@;
        let m = &messages[i];
        let hm = HFMessage { role: role_str(m.role), content: flatten_content(&m.content) };
        out.push(hm);
        proof {
            assert(out@ == prev.push(hm));
            assert(out@.map_values(|m: HFMessage| hf_message_view(m)) =~= prev.map_values(|m: HFMessage| hf_message_view(m)).push(hf_message_view(hm)));
            assert(messages@.take(i + 1).map_values(|m: ChatMessage| hf_message_data(m))
                =~= messages@.take(i as int).map_values(|m: ChatMessage| hf_message_data(m)).push(hf_message_data(messages@[i as int])));
        }
        i = i + 1;
    }
    proof {
        assert(messages@.take(messages@.len() as int) =~= messages@);
    }
    out
}

/// A chat request as the inference API takes it. Temperature and top-p, which
/// are floating point, are added by whoever writes the request out.
#[derive(Debug)]
pub struct HFChatRequest {
    pub model: String,
    pub messages: Vec<HFMessage>,
    pub max_tokens: Option<u32>,
    pub stream: bool,
}

/// The request sent for a chat: the model, the converted messages and the
/// token limit, not streamed.
pub fn chat_request(request: &ChatRequest) -> (r: HFChatRequest)
    ensures
        r.model@ == request.model@,
        r.messages@.map_values(|m: HFMessage| hf_message_view(m)) == request.messages@.map_values(|m: ChatMessage| hf_message_data(m)),
        r.max_tokens == request.max_tokens,
        !r.stream,
{
    HFChatRequest {
        model: request.model.clone(),
        messages: convert_messages(&request.messages),
        max_tokens: request.max_tokens,
        stream: false,
    }
}

#[derive(Debug)]
pub struct HFResponseMessage {
    pub role: String,
    pub content: String,
}

#[derive(Debug)]
pub struct HFChoice {
    pub index: u32,
    pub message: HFResponseMessage,
    pub finish_reason: Option<String>,
}

#[derive(Debug)]
pub struct HFUsage {
    pub prompt_tokens: u32,
    pub completion_tokens: u32,
    pub total_tokens: u32,
}

/// An answer of the chat endpoint.
#[derive(Debug)]
pub struct HFChatResponse {
    pub id: Option<String>,
    pub choices: Vec<HFChoice>,
    pub usage: Option<HFUsage>,
}

/// A choice of the inference API and one of a chat response agree: same index
/// and finish reason, and an assistant message with the same text.
pub open spec fn choice_converted(h: HFChoice, c: ChatChoice) -> bool {
    &&& c.index == h.index
    &&& c.finish_reason == h.finish_reason
    &&& c.message.role == MessageRole::Assistant
    &&& c.message.content == MessageContent::Text(h.message.content)
    &&& c.message.name is None
    &&& c.message.tool_call_id is None
    &&& c.message.tool_calls is None
}

/// The chat response for an answer of the inference API to a request for
/// `model`: the answer's id (empty when it has none), the model asked for,
/// its choices as assistant messages, and its usage.
pub fn chat_response(model: String, resp: HFChatResponse) -> (r: ChatResponse)
    ensures
        r.id@ == match resp.id {
            Some(id) => id@,
            None => Seq::<char>::empty(),
        },
        r.model == model,
        r.choices@.len() == resp.choices@.len(),
        forall|i: int| 0 <= i < resp.choices@.len() ==> choice_converted(#[trigger] resp.choices@[i], r.choices@[i]),
        r.usage == match resp.usage {
            Some(u) => Some(Usage { prompt_tokens: u.prompt_tokens, completion_tokens: u.completion_tokens, total_tokens: u.total_tokens }),
            None => None,
        },
{
    let id = match &resp.id {
        Some(id) => id.clone(),
        None => String::new(),
    };
    let mut choices: Vec<ChatChoice> = Vec::new();
    let mut i: usize = 0;
    while i < resp.choices.len()
        invariant
            i <= resp.choices@.len(),
            choices@.len() == i,
            forall|k: int| 0 <= k < i ==> choice_converted(#[trigger] resp.choices@[k], choices@[k]),
        decreases resp.choices@.len() - i,
    {
        let c = &resp.choices[i];
        choices.push(ChatChoice {
            index: c.index,
            message: ChatMessage {
                role: MessageRole::Assistant,
                content: MessageContent::Text(c.message.content.clone()),
                name: None,
                tool_call_id: None,
                tool_calls: None,
            },
            finish_reason: clone_opt(&c.finish_reason),
        });
        i = i + 1;
    }
    let usage = match &resp.usage {
        Some(u) => Some(Usage { prompt_tokens: u.prompt_tokens, completion_tokens: u.completion_tokens, total_tokens: u.total_tokens }),
        None => None,
    };
    ChatResponse { id, model, choices, usage }
}

/// The answer to a request for a streamed chat, which this API does not offer.
pub fn stream_unsupported() -> (r: Error)
    ensures
        r matches Error::Api { message, code } && message@ == "Streaming not supported for HuggingFace Inference API"@ && code is None,
{
    Error::Api { message: owned("Streaming not supported for HuggingFace Inference API"), code: None }
}

} // verus!
