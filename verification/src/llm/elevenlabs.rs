use vstd::prelude::*;

use crate::error::Error;
use crate::http::{header_views, HttpMethod, HttpRequest};
use crate::llm::ProviderConfig;
use crate::text::{concat, owned};

verus! {

/// The endpoint used when none is configured.
pub open spec fn elevenlabs_api_base() -> Seq<char> {
    "https://api.elevenlabs.io/v1"@
}

/// A client of the ElevenLabs speech API.
#[derive(Debug)]
pub struct ElevenLabsClient {
    api_key: String,
    base_url: String,
}

impl ElevenLabsClient {
    pub closed spec fn key(self) -> Seq<char> {
        self.api_key@
    }

    pub closed spec fn base(self) -> Seq<char> {
        self.base_url@
    }

    pub fn new(config: ProviderConfig) -> (r: Self)
        ensures
            r.key() == config.api_key@,
            r.base() == match config.base_url {
                Some(u) => u@,
                None => elevenlabs_api_base(),
            },
    {
        let base_url = match config.base_url {
            Some(u) => u,
            None => owned("https://api.elevenlabs.io/v1"),
        };
        ElevenLabsClient { api_key: config.api_key, base_url }
    }

    pub fn from_api_key(api_key: String) -> (r: Self)
        ensures
            r.key() == api_key@,
            r.base() == elevenlabs_api_base(),
    {
        ElevenLabsClient::new(ProviderConfig::new(api_key))
    }

    /// A request to `path` under the base URL, carrying the key.
    pub fn request(&self, method: HttpMethod, path: &str) -> (r: HttpRequest)
        ensures
            r.method == method,
            r.url@ == self.base() + path@,
            header_views(r.headers@) == seq![("xi-api-key"@, self.key())],
    {
        let mut headers: Vec<(String, String)> = Vec::new();
        headers.push((owned("xi-api-key"), self.api_key.clone()));
        proof {
            assert(header_views(headers@) =~= seq![("xi-api-key"@, self.key())]);
        }
        HttpRequest { method, url: concat(self.base_url.as_str(), path), headers }
    }
}

/// The path that turns text into speech in a voice: `/text-to-speech/<voice>`.
pub fn tts_path(voice_id: &str) -> (r: String)
    ensures
        r@ == "/text-to-speech/"@ + voice_id@,
{
    concat("/text-to-speech/", voice_id)
}

/// A voice offered by the service.
#[derive(Debug)]
pub struct Voice {
    pub voice_id: String,
    pub name: String,
    pub category: Option<String>,
    pub description: Option<String>,
    pub labels: Option<Vec<(String, String)>>,
    pub preview_url: Option<String>,
}

/// The error for a failed request: the response text, with no code.
pub fn text_error(body: String) -> (r: Error)
    ensures
        r == (Error::Api { message: body, code: None }),
{
    Error::Api { message: body, code: None }
}

/// The answer to a request for transcription, which this service does not offer.
pub fn speech_to_text_unsupported() -> (r: Error)
    ensures
        r matches Error::Api { message, code } && message@ == "ElevenLabs does not support speech-to-text"@ && code is None,
{
    Error::Api { message: owned("ElevenLabs does not support speech-to-text"), code: None }
}

} // verus!
