use vstd::prelude::*;

pub mod anthropic;
pub mod chat;
pub mod deepl;
pub mod elevenlabs;
pub mod embedding;
pub mod huggingface;
pub mod mistral;
pub mod openai;
pub mod runway;
pub mod sse;
pub mod stability;
pub mod voyage;

verus! {

/// The settings a provider client is built from.
#[derive(Debug)]
pub struct ProviderConfig {
    pub api_key: String,
    pub base_url: Option<String>,
    pub organization: Option<String>,
}

impl ProviderConfig {
    /// Settings with an API key and no other choice made.
    pub fn new(api_key: String) -> (r: Self)
        ensures
            r.api_key == api_key,
            r.base_url is None,
            r.organization is None,
    {
        ProviderConfig { api_key, base_url: None, organization: None }
    }

    pub fn with_base_url(self, base_url: String) -> (r: Self)
        ensures
            r.api_key == self.api_key,
            r.base_url == Some(base_url),
            r.organization == self.organization,
    {
        ProviderConfig { api_key: self.api_key, base_url: Some(base_url), organization: self.organization }
    }
}

/// A text to translate and how.
#[derive(Debug)]
pub struct TranslationRequest {
    pub text: Vec<String>,
    pub target_language: String,
    pub source_language: Option<String>,
    pub formality: Option<String>,
    pub preserve_formatting: Option<bool>,
}

/// One translated text.
#[derive(Debug)]
pub struct Translation {
    pub text: String,
    pub detected_source_language: Option<String>,
}

/// The translations of a request, one per text.
#[derive(Debug)]
pub struct TranslationResponse {
    pub translations: Vec<Translation>,
}

} // verus!

verus! {

/// A video to generate: from a prompt alone, or from an image and a prompt.
#[derive(Debug)]
pub struct VideoRequest {
    pub prompt: String,
    pub image: Option<String>,
    pub model: Option<String>,
    pub duration: Option<u32>,
    pub aspect_ratio: Option<String>,
    pub seed: Option<u64>,
}

/// One generated (or pending) video.
#[derive(Debug)]
pub struct VideoData {
    pub url: Option<String>,
    pub task_id: Option<String>,
}

/// The state of a video generation.
#[derive(Debug)]
pub struct VideoResponse {
    pub id: String,
    pub status: String,
    pub data: Vec<VideoData>,
}

/// An image to generate.
#[derive(Debug)]
pub struct ImageRequest {
    pub prompt: String,
    pub model: Option<String>,
    pub size: Option<String>,
    pub response_format: Option<String>,
}

/// One generated image: a link or its base64 encoding.
#[derive(Debug)]
pub struct ImageData {
    pub url: Option<String>,
    pub b64_json: Option<String>,
    pub revised_prompt: Option<String>,
}

#[derive(Debug)]
pub struct ImageResponse {
    pub created: u64,
    pub data: Vec<ImageData>,
}

} // verus!
