use vstd::prelude::*;

use crate::http::{header_views, HttpMethod, HttpRequest};
use crate::llm::chat::{
    opt_view, stream_event_data, ChatStreamEvent, DeltaData, MessageRole, StreamDelta, StreamEventData,
    ToolCallDelta, Usage,
};
use crate::llm::ProviderConfig;
use crate::text::{clone_opt, concat, owned};

verus! {

/// The endpoint used when none is configured.
pub open spec fn openai_api_base() -> Seq<char> {
    "https://api.openai.com/v1"@
}

/// A client of the OpenAI API.
#[derive(Debug)]
pub struct OpenAIClient {
    api_key: String,
    base_url: String,
    organization: Option<String>,
}

/// The headers of a request: the key, and the organization when there is one.
pub open spec fn openai_headers(key: Seq<char>, organization: Option<Seq<char>>) -> Seq<(Seq<char>, Seq<char>)> {
    match organization {
        Some(org) => seq![("Authorization"@, "Bearer "@ + key), ("OpenAI-Organization"@, org)],
        None => seq![("Authorization"@, "Bearer "@ + key)],
    }
}

impl OpenAIClient {
    pub closed spec fn key(self) -> Seq<char> {
        self.api_key@
    }

    pub closed spec fn base(self) -> Seq<char> {
        self.base_url@
    }

    pub closed spec fn organization(self) -> Option<Seq<char>> {
        opt_view(self.organization)
    }

    pub fn new(config: ProviderConfig) -> (r: Self)
        ensures
            r.key() == config.api_key@,
            r.base() == match config.base_url {
                Some(u) => u@,
                None => openai_api_base(),
            },
            r.organization() == opt_view(config.organization),
    {
        let base_url = match config.base_url {
            Some(u) => u,
            None => owned("https://api.openai.com/v1"),
        };
        OpenAIClient { api_key: config.api_key, base_url, organization: config.organization }
    }

    pub fn from_api_key(api_key: String) -> (r: Self)
        ensures
            r.key() == api_key@,
            r.base() == openai_api_base(),
            r.organization() is None,
    {
        OpenAIClient::new(ProviderConfig::new(api_key))
    }

    /// A request to `path` under the base URL, authorized by the key and
    /// naming the organization when one is set.
    pub fn request(&self, method: HttpMethod, path: &str) -> (r: HttpRequest)
        ensures
            r.method == method,
            r.url@ == self.base() + path@,
            header_views(r.headers@) == openai_headers(self.key(), self.organization()),
    {
        let mut headers: Vec<(String, String)> = Vec::new();
        headers.push((owned("Authorization"), concat("Bearer ", self.api_key.as_str())));
        match &self.organization {
            Some(org) => {
                headers.push((owned("OpenAI-Organization"), org.clone()));
            },
            None => {},
        }
        proof {
            assert(header_views(headers@) =~= openai_headers(self.key(), self.organization()));
        }
        HttpRequest { method, url: concat(self.base_url.as_str(), path), headers }
    }
}

#[derive(Debug)]
pub struct OpenAIStreamDelta {
    pub role: Option<MessageRole>,
    pub content: Option<String>,
    pub tool_calls: Option<Vec<ToolCallDelta>>,
}

#[derive(Debug)]
pub struct OpenAIStreamChoice {
    pub delta: OpenAIStreamDelta,
    pub finish_reason: Option<String>,
}

/// A chunk of a streamed answer.
#[derive(Debug)]
pub struct OpenAIStreamChunk {
    pub id: String,
    pub choices: Vec<OpenAIStreamChoice>,
    pub usage: Option<Usage>,
}

/// The stream event a chunk gives: its id, the first choice's delta (tool
/// call pieces included) and finish reason, and its usage.
pub open spec fn openai_chunk_meaning(c: OpenAIStreamChunk) -> StreamEventData {
    StreamEventData {
        id: Some(c.id@),
        delta: if c.choices@.len() == 0 {
            None
        } else {
            Some(DeltaData {
                role: c.choices@[0].delta.role,
                content: opt_view(c.choices@[0].delta.content),
                tool_calls: match c.choices@[0].delta.tool_calls {
                    Some(v) => Some(v@),
                    None => None,
                },
            })
        },
        finish_reason: if c.choices@.len() == 0 {
            None
        } else {
            opt_view(c.choices@[0].finish_reason)
        },
        usage: c.usage,
    }
}

/// The stream event a chunk gives.
pub fn stream_event(chunk: OpenAIStreamChunk) -> (r: ChatStreamEvent)
    ensures
        stream_event_data(r) == openai_chunk_meaning(chunk),
{
    let ghost c0 = chunk;
    let OpenAIStreamChunk { id, choices, usage } = chunk;
    let mut choices = choices;
    let (delta, finish_reason) = if choices.len() == 0 {
        (None, None)
    } else {
        let ghost first = choices@[0];
        let c = choices.swap_remove(0);
        proof {
            assert(c == first);
        }
        (Some(StreamDelta { role: c.delta.role, content: c.delta.content, tool_calls: c.delta.tool_calls }), c.finish_reason)
    };
    ChatStreamEvent { id: Some(id), delta, finish_reason, usage }
}

} // verus!
