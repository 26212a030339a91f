use vstd::prelude::*;

use crate::error::Error;
use crate::http::{header, header_views, HttpMethod, HttpRequest};
use crate::llm::chat::Usage;
use crate::llm::embedding::EmbeddingRequest;
use crate::llm::ProviderConfig;
use crate::text::{clone_strings, concat, owned, push_str};

verus! {

/// The endpoint used when none is configured.
pub open spec fn voyage_api_base() -> Seq<char> {
    "https://api.voyageai.com/v1"@
}

/// A client of the Voyage embedding API.
#[derive(Debug)]
pub struct VoyageClient {
    api_key: String,
    base_url: String,
}

impl VoyageClient {
    pub closed spec fn key(self) -> Seq<char> {
        self.api_key@
    }

    pub closed spec fn base(self) -> Seq<char> {
        self.base_url@
    }

    pub fn new(config: ProviderConfig) -> (r: Self)
        ensures
            r.key() == config.api_key@,
            r.base() == match config.base_url {
                Some(u) => u@,
                None => voyage_api_base(),
            },
    {
        let base_url = match config.base_url {
            Some(u) => u,
            None => owned("https://api.voyageai.com/v1"),
        };
        VoyageClient { api_key: config.api_key, base_url }
    }

    pub fn from_api_key(api_key: String) -> (r: Self)
        ensures
            r.key() == api_key@,
            r.base() == voyage_api_base(),
    {
        VoyageClient::new(ProviderConfig::new(api_key))
    }

    /// A request to `path` under the base URL, authorized by the key, with a
    /// JSON content type.
    pub fn request(&self, method: HttpMethod, path: &str) -> (r: HttpRequest)
        ensures
            r.method == method,
            r.url@ == self.base() + path@,
            header_views(r.headers@) == seq![
                ("Authorization"@, "Bearer "@ + self.key()),
                ("Content-Type"@, "application/json"@),
            ],
    {
        let mut headers: Vec<(String, String)> = Vec::new();
        headers.push((owned("Authorization"), concat("Bearer ", self.api_key.as_str())));
        headers.push(header("Content-Type", "application/json"));
        proof {
            assert(header_views(headers@) =~= seq![
                ("Authorization"@, "Bearer "@ + self.key()),
                ("Content-Type"@, "application/json"@),
            ]);
        }
        HttpRequest { method, url: concat(self.base_url.as_str(), path), headers }
    }
}

/// An embedding request as the Voyage API takes it.
#[derive(Debug)]
pub struct VoyageEmbeddingRequest {
    pub model: String,
    pub input: Vec<String>,
    pub input_type: Option<String>,
    pub truncation: Option<bool>,
}

/// The request sent for `request`: its model and inputs, embedded as
/// documents, with truncation on.
pub fn embedding_request(request: &EmbeddingRequest) -> (r: VoyageEmbeddingRequest)
    ensures
        r.model == request.model,
        r.input@ == request.input@,
        r.input_type matches Some(t) && t@ == "document"@,
        r.truncation == Some(true),
{
    VoyageEmbeddingRequest {
        model: request.model.clone(),
        input: clone_strings(&request.input),
        input_type: Some(owned("document")),
        truncation: Some(true),
    }
}

/// The usage of an embedding request: all tokens count as prompt tokens.
pub fn embedding_usage(total_tokens: u32) -> (r: Usage)
    ensures
        r == (Usage { prompt_tokens: total_tokens, completion_tokens: 0, total_tokens }),
{
    Usage { prompt_tokens: total_tokens, completion_tokens: 0, total_tokens }
}

/// The error for a failed request: its status and body in the message, the
/// status as the code.
pub fn status_error(status: &str, body: &str) -> (r: Error)
    ensures
        r matches Error::Api { message, code }
            && message@ == "Voyage API error "@ + status@ + ": "@ + body@
            && (code matches Some(c) && c@ == status@),
{
    let mut message = concat("Voyage API error ", status);
    push_str(&mut message, ": ");
    push_str(&mut message, body);
    Error::Api { message, code: Some(owned(status)) }
}

} // verus!
