use vstd::prelude::*;

use crate::error::Error;
use crate::http::{header, header_views, HttpMethod, HttpRequest};
use crate::llm::chat::{
    flat_text, flatten_content, opt_view, role_name, role_str, stream_event_data, ChatMessage, ChatRequest,
    ChatStreamEvent, DeltaData, MessageRole, StreamDelta, StreamEventData, Usage,
};
use crate::llm::embedding::EmbeddingRequest;
use crate::llm::ProviderConfig;
use crate::text::{clone_opt, clone_strings, concat, owned};

verus! {

/// The endpoint used when none is configured.
pub open spec fn mistral_api_base() -> Seq<char> {
    "https://api.mistral.ai/v1"@
}

/// A client of the Mistral API.
#[derive(Debug)]
pub struct MistralClient {
    api_key: String,
    base_url: String,
}

impl MistralClient {
    pub closed spec fn key(self) -> Seq<char> {
        self.api_key@
    }

    pub closed spec fn base(self) -> Seq<char> {
        self.base_url@
    }

    pub fn new(config: ProviderConfig) -> (r: Self)
        ensures
            r.key() == config.api_key@,
            r.base() == match config.base_url {
                Some(u) => u@,
                None => mistral_api_base(),
            },
    {
        let base_url = match config.base_url {
            Some(u) => u,
            None => owned("https://api.mistral.ai/v1"),
        };
        MistralClient { api_key: config.api_key, base_url }
    }

    pub fn from_api_key(api_key: String) -> (r: Self)
        ensures
            r.key() == api_key@,
            r.base() == mistral_api_base(),
    {
        MistralClient::new(ProviderConfig::new(api_key))
    }

    /// A request to `path` under the base URL, authorized by the key, with a
    /// JSON content type.
    pub fn request(&self, method: HttpMethod, path: &str) -> (r: HttpRequest)
        ensures
            r.method == method,
            r.url@ == self.base() + path@,
            header_views(r.headers@) == seq![
                ("Authorization"@, "Bearer "@ + self.key()),
                ("Content-Type"@, "application/json"@),
            ],
    {
        let mut headers: Vec<(String, String)> = Vec::new();
        headers.push((owned("Authorization"), concat("Bearer ", self.api_key.as_str())));
        headers.push(header("Content-Type", "application/json"));
        proof {
            assert(header_views(headers@) =~= seq![
                ("Authorization"@, "Bearer "@ + self.key()),
                ("Content-Type"@, "application/json"@),
            ]);
        }
        HttpRequest { method, url: concat(self.base_url.as_str(), path), headers }
    }
}

#[derive(Debug)]
pub struct MistralMessage {
    pub role: String,
    pub content: String,
}

/// A chat request as the Mistral API takes it. Temperature and top-p, which
/// are floating point, are added by whoever writes the request out.
#[derive(Debug)]
pub struct MistralChatRequest {
    pub model: String,
    pub messages: Vec<MistralMessage>,
    pub max_tokens: Option<u32>,
    pub stream: Option<bool>,
    pub safe_prompt: Option<bool>,
    pub random_seed: Option<u64>,
}

/// The role and text of a message as the Mistral API takes it.
pub open spec fn mistral_message_data(m: ChatMessage) -> (Seq<char>, Seq<char>) {
    (role_name(m.role), flat_text(m.content))
}

pub open spec fn mistral_message_view(m: MistralMessage) -> (Seq<char>, Seq<char>) {
    (m.role@, m.content@)
}

impl MistralChatRequest {
    /// A chat request as the Mistral API takes it: the model, each message with
    /// its role's name and text (text parts joined by newlines), the token
    /// limit, and no other option set.
    pub fn from_chat(request: &ChatRequest) -> (r: Self)
        ensures
            r.model@ == request.model@,
            r.messages@.map_values(|m: MistralMessage| mistral_message_view(m))
                == request.messages@.map_values(|m: ChatMessage| mistral_message_data(m)),
            r.max_tokens == request.max_tokens,
            r.stream is None,
            r.safe_prompt is None,
            r.random_seed is None,
    {
        let mut messages: Vec<MistralMessage> = Vec::new();
        let mut i: usize = 0;
        while i < request.messages.len()
            invariant
                i <= request.messages@.len(),
                messages@.map_values(|m: MistralMessage| mistral_message_view(m))
                    == request.messages@.take(i as int).map_values(|m: ChatMessage| mistral_message_data(m)),
            decreases request.messages@.len() - i,
        {
            let ghost prev = messages@;
            let m = &request.messages[i];
            let mm = MistralMessage { role: role_str(m.role), content: flatten_content(&m.content) };
            messages.push(mm);
            proof {
                assert(messages@ == prev.push(mm));
                assert(messages@.map_values(|m: MistralMessage| mistral_message_view(m))
                    =~= prev.map_values(|m: MistralMessage| mistral_message_view(m)).push(mistral_message_view(mm)));
                assert(request.messages@.take(i + 1).map_values(|m: ChatMessage| mistral_message_data(m))
                    =~= request.messages@.take(i as int).map_values(|m: ChatMessage| mistral_message_data(m)).push(
                    mistral_message_data(request.messages@[i as int]),
                ));
            }
            i = i + 1;
        }
        proof {
            assert(request.messages@.take(request.messages@.len() as int) =~= request.messages@);
        }
        MistralChatRequest {
            model: request.model.clone(),
            messages,
            max_tokens: request.max_tokens,
            stream: None,
            safe_prompt: None,
            random_seed: None,
        }
    }
}

/// An embedding request as the Mistral API takes it.
#[derive(Debug)]
pub struct MistralEmbeddingRequest {
    pub model: String,
    pub input: Vec<String>,
    pub encoding_format: Option<String>,
}

/// The embedding request sent for `request`: its model, inputs and encoding.
pub fn embedding_request(request: &EmbeddingRequest) -> (r: MistralEmbeddingRequest)
    ensures
        r.model == request.model,
        r.input@ == request.input@,
        r.encoding_format == request.encoding_format,
{
    MistralEmbeddingRequest {
        model: request.model.clone(),
        input: clone_strings(&request.input),
        encoding_format: clone_opt(&request.encoding_format),
    }
}

#[derive(Debug)]
pub struct MistralStreamDelta {
    pub role: Option<MessageRole>,
    pub content: Option<String>,
}

#[derive(Debug)]
pub struct MistralStreamChoice {
    pub delta: MistralStreamDelta,
    pub finish_reason: Option<String>,
}

#[derive(Debug)]
pub struct MistralUsage {
    pub prompt_tokens: u32,
    pub completion_tokens: u32,
    pub total_tokens: u32,
}

/// A chunk of a streamed answer.
#[derive(Debug)]
pub struct MistralStreamChunk {
    pub id: String,
    pub choices: Vec<MistralStreamChoice>,
    pub usage: Option<MistralUsage>,
}

/// The stream event a chunk gives: its id, the first choice's delta and
/// finish reason, and its usage.
pub open spec fn mistral_chunk_meaning(c: MistralStreamChunk) -> StreamEventData {
    StreamEventData {
        id: Some(c.id@),
        delta: if c.choices@.len() == 0 {
            None
        } else {
            Some(DeltaData { role: c.choices@[0].delta.role, content: opt_view(c.choices@[0].delta.content), tool_calls: None })
        },
        finish_reason: if c.choices@.len() == 0 {
            None
        } else {
            opt_view(c.choices@[0].finish_reason)
        },
        usage: match c.usage {
            Some(u) => Some(Usage { prompt_tokens: u.prompt_tokens, completion_tokens: u.completion_tokens, total_tokens: u.total_tokens }),
            None => None,
        },
    }
}

/// The stream event a chunk gives.
pub fn stream_event(chunk: &MistralStreamChunk) -> (r: ChatStreamEvent)
    ensures
        stream_event_data(r) == mistral_chunk_meaning(*chunk),
{
    let (delta, finish_reason) = if chunk.choices.len() == 0 {
        (None, None)
    } else {
        let c = &chunk.choices[0];
        (
            Some(StreamDelta { role: c.delta.role, content: clone_opt(&c.delta.content), tool_calls: None }),
            clone_opt(&c.finish_reason),
        )
    };
    let usage = match &chunk.usage {
        Some(u) => Some(Usage { prompt_tokens: u.prompt_tokens, completion_tokens: u.completion_tokens, total_tokens: u.total_tokens }),
        None => None,
    };
    ChatStreamEvent { id: Some(chunk.id.clone()), delta, finish_reason, usage }
}

/// The error that a failed request's body describes.
pub fn api_error(message: String, error_type: Option<String>) -> (r: Error)
    ensures
        r == (Error::Api { message, code: error_type }),
{
    Error::Api { message, code: error_type }
}

} // verus!
