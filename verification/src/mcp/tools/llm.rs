use vstd::prelude::*;

use crate::json::{members_data, push_member, string_value, JsonData, JsonValue};
use crate::llm::anthropic::AnthropicClient;
use crate::llm::chat::{response_text, ChatMessage, ChatRequest as LlmChatRequest, ChatResponse, MessageContent, MessageRole};
use crate::llm::deepl::DeepLClient;
use crate::llm::embedding::EmbeddingRequest;
use crate::llm::mistral::MistralClient;
use crate::llm::openai::OpenAIClient;
use crate::llm::stability::StabilityClient;
use crate::llm::{ImageData, ImageRequest, TranslationRequest, TranslationResponse};
use crate::text::{clone_opt, concat, owned};

verus! {

/// The language-model clients that the tools can use; each is optional.
#[derive(Debug)]
pub struct LlmTools {
    pub openai: Option<OpenAIClient>,
    pub anthropic: Option<AnthropicClient>,
    pub mistral: Option<MistralClient>,
    pub deepl: Option<DeepLClient>,
    pub stability: Option<StabilityClient>,
}

impl LlmTools {
    /// No client configured.
    pub fn new() -> (r: Self)
        ensures
            r.openai is None,
            r.anthropic is None,
            r.mistral is None,
            r.deepl is None,
            r.stability is None,
    {
        LlmTools { openai: None, anthropic: None, mistral: None, deepl: None, stability: None }
    }

    pub fn with_openai(self, client: OpenAIClient) -> (r: Self)
        ensures
            r.openai == Some(client),
            r.anthropic == self.anthropic,
            r.mistral == self.mistral,
            r.deepl == self.deepl,
            r.stability == self.stability,
    {
        LlmTools { openai: Some(client), ..self }
    }

    pub fn with_anthropic(self, client: AnthropicClient) -> (r: Self)
        ensures
            r.openai == self.openai,
            r.anthropic == Some(client),
            r.mistral == self.mistral,
            r.deepl == self.deepl,
            r.stability == self.stability,
    {
        LlmTools { anthropic: Some(client), ..self }
    }

    pub fn with_mistral(self, client: MistralClient) -> (r: Self)
        ensures
            r.openai == self.openai,
            r.anthropic == self.anthropic,
            r.mistral == Some(client),
            r.deepl == self.deepl,
            r.stability == self.stability,
    {
        LlmTools { mistral: Some(client), ..self }
    }

    pub fn with_deepl(self, client: DeepLClient) -> (r: Self)
        ensures
            r.openai == self.openai,
            r.anthropic == self.anthropic,
            r.mistral == self.mistral,
            r.deepl == Some(client),
            r.stability == self.stability,
    {
        LlmTools { deepl: Some(client), ..self }
    }

    pub fn with_stability(self, client: StabilityClient) -> (r: Self)
        ensures
            r.openai == self.openai,
            r.anthropic == self.anthropic,
            r.mistral == self.mistral,
            r.deepl == self.deepl,
            r.stability == Some(client),
    {
        LlmTools { stability: Some(client), ..self }
    }
}

impl Default for LlmTools {
    fn default() -> (r: Self)
        ensures
            r.openai is None,
            r.anthropic is None,
            r.mistral is None,
            r.deepl is None,
            r.stability is None,
    {
        LlmTools::new()
    }
}

/// The arguments of the chat tools. The temperature, which is floating point,
/// is carried beside them by the caller.
#[derive(Debug)]
pub struct ChatRequest {
    pub model: String,
    pub message: String,
    pub system: Option<String>,
    pub max_tokens: Option<u32>,
}

/// The arguments of the embedding tools.
#[derive(Debug)]
pub struct EmbedRequest {
    pub text: String,
    pub model: Option<String>,
}

/// The arguments of the image tools.
#[derive(Debug)]
pub struct ImageGenRequest {
    pub prompt: String,
    pub model: Option<String>,
    pub size: Option<String>,
}

/// The arguments of the translation tool.
#[derive(Debug)]
pub struct TranslateRequest {
    pub text: String,
    pub target_lang: String,
    pub source_lang: Option<String>,
}

/// The arguments of the language detection tool.
#[derive(Debug)]
pub struct DetectLanguageRequest {
    pub text: String,
}

/// The answer of a tool whose client is missing: `<provider> client not configured`.
pub fn not_configured(provider: &str) -> (r: String)
    ensures
        r@ == provider@ + " client not configured"@,
{
    concat(provider, " client not configured")
}

/// A message of `role` saying `text`.
pub fn text_message(role: MessageRole, text: String) -> (r: ChatMessage)
    ensures
        r.role == role,
        r.content == MessageContent::Text(text),
        r.name is None,
        r.tool_call_id is None,
        r.tool_calls is None,
{
    ChatMessage { role, content: MessageContent::Text(text), name: None, tool_call_id: None, tool_calls: None }
}

/// The chat request a chat tool sends: the system prompt first when there is
/// one and the provider takes it, then the user's message; the model and token
/// limit asked for, and nothing else.
pub fn chat_request_for(req: &ChatRequest, with_system: bool) -> (r: LlmChatRequest)
    ensures
        r.model == req.model,
        r.max_tokens == req.max_tokens,
        r.stop is None,
        r.tools is None,
        r.tool_choice is None,
        r.response_format is None,
        ({
            let sys = with_system && req.system is Some;
            &&& r.messages@.len() == if sys { 2int } else { 1int }
            &&& sys ==> r.messages@[0].role == MessageRole::System && r.messages@[0].content == MessageContent::Text(req.system->0)
            &&& r.messages@.last().role == MessageRole::User
            &&& r.messages@.last().content == MessageContent::Text(req.message)
            &&& forall|i: int| 0 <= i < r.messages@.len() ==> (#[trigger] r.messages@[i]).name is None
                && r.messages@[i].tool_call_id is None && r.messages@[i].tool_calls is None
        }),
{
    let mut messages: Vec<ChatMessage> = Vec::new();
    if with_system {
        match &req.system {
            Some(s) => {
                messages.push(text_message(MessageRole::System, s.clone()));
            },
            None => {},
        }
    }
    messages.push(text_message(MessageRole::User, req.message.clone()));
    LlmChatRequest {
        model: req.model.clone(),
        messages,
        max_tokens: req.max_tokens,
        stop: None,
        tools: None,
        tool_choice: None,
        response_format: None,
    }
}

/// What a chat tool answers: the text of the model's first answer, or
/// nothing.
pub fn chat_reply(resp: &ChatResponse) -> (r: String)
    ensures
        r@ == match response_text(*resp) {
            Some(t) => t,
            None => Seq::<char>::empty(),
        },
{
    match resp.content() {
        Some(t) => owned(t),
        None => String::new(),
    }
}

/// The embedding request of an embedding tool: the one text, with the model
/// asked for or `default_model`.
pub fn embedding_request_for(req: &EmbedRequest, default_model: &str) -> (r: EmbeddingRequest)
    ensures
        r.model@ == match req.model {
            Some(m) => m@,
            None => default_model@,
        },
        r.input@.len() == 1,
        r.input@[0] == req.text,
        r.encoding_format is None,
        r.dimensions is None,
{
    let model = match &req.model {
        Some(m) => m.clone(),
        None => owned(default_model),
    };
    let mut input: Vec<String> = Vec::new();
    input.push(req.text.clone());
    EmbeddingRequest { model, input, encoding_format: None, dimensions: None }
}

/// The image request of an image tool: the prompt, the model when given, and
/// the size when given and the provider takes one.
pub fn image_request_for(req: &ImageGenRequest, with_size: bool) -> (r: ImageRequest)
    ensures
        r.prompt == req.prompt,
        r.model == req.model,
        r.size == if with_size { req.size } else { None },
        r.response_format is None,
{
    ImageRequest {
        prompt: req.prompt.clone(),
        model: clone_opt(&req.model),
        size: if with_size { clone_opt(&req.size) } else { None },
        response_format: None,
    }
}

/// An optional text as JSON: the string, or `null`.
pub open spec fn opt_text_data(o: Option<String>) -> JsonData {
    match o {
        Some(s) => JsonData::Str(s@),
        None => JsonData::Null,
    }
}

fn opt_text(o: &Option<String>) -> (r: JsonValue)
    ensures
        r@ == opt_text_data(*o),
{
    match o {
        Some(s) => string_value(s.as_str()),
        None => JsonValue::Null,
    }
}

/// `{"images": [...]}` with one entry per image made by `entry`.
pub open spec fn images_data(data: Seq<ImageData>, with_prompt: bool) -> JsonData {
    JsonData::Object(seq![("images"@, JsonData::Array(data.map_values(|d: ImageData| image_entry(d, with_prompt))))])
}

/// An image's entry: its link and revised prompt, or its base64 text and link.
pub open spec fn image_entry(d: ImageData, with_prompt: bool) -> JsonData {
    if with_prompt {
        JsonData::Object(seq![("url"@, opt_text_data(d.url)), ("revised_prompt"@, opt_text_data(d.revised_prompt))])
    } else {
        JsonData::Object(seq![("base64"@, opt_text_data(d.b64_json)), ("url"@, opt_text_data(d.url))])
    }
}

/// What the image tools answer: each image's link and revised prompt (OpenAI)
/// or its base64 text and link (Stability), as JSON.
pub fn images_json(data: &Vec<ImageData>, with_prompt: bool) -> (r: JsonValue)
    ensures
        r@ == images_data(data@, with_prompt),
{
    let mut items: Vec<JsonValue> = Vec::new();
    let mut i: usize = 0;
    while i < data.len()
        invariant
            i <= data@.len(),
            crate::json::items_data(items@) == data@.take(i as int).map_values(|d: ImageData| image_entry(d, with_prompt)),
        decreases data@.len() - i,
    {
        let d = &data[i];
        let mut m: Vec<(String, JsonValue)> = Vec::new();
        if with_prompt {
            push_member(&mut m, "url", opt_text(&d.url));
            push_member(&mut m, "revised_prompt", opt_text(&d.revised_prompt));
        } else {
            push_member(&mut m, "base64", opt_text(&d.b64_json));
            push_member(&mut m, "url", opt_text(&d.url));
        }
        let entry = JsonValue::Object(m);
        proof {
            if with_prompt {
                assert(members_data(m@) =~= seq![("url"@, opt_text_data(d.url)), ("revised_prompt"@, opt_text_data(d.revised_prompt))]);
            } else {
                assert(members_data(m@) =~= seq![("base64"@, opt_text_data(d.b64_json)), ("url"@, opt_text_data(d.url))]);
            }
            crate::json::lemma_items_data_push(items@, entry);
            assert(data@.take(i + 1).map_values(|d: ImageData| image_entry(d, with_prompt))
                =~= data@.take(i as int).map_values(|d: ImageData| image_entry(d, with_prompt)).push(image_entry(data@[i as int], with_prompt)));
        }
        items.push(entry);
        i = i + 1;
    }
    proof {
        assert(data@.take(data@.len() as int) =~= data@);
    }
    let mut top: Vec<(String, JsonValue)> = Vec::new();
    let ghost arr = crate::json::items_data(items@);
    push_member(&mut top, "images", JsonValue::Array(items));
    proof {
        assert(members_data(top@) =~= seq![("images"@, JsonData::Array(arr))]);
    }
    JsonValue::Object(top)
}

/// The translation request of the translation tool.
pub fn translation_request_for(req: &TranslateRequest) -> (r: TranslationRequest)
    ensures
        r.text@.len() == 1,
        r.text@[0] == req.text,
        r.target_language == req.target_lang,
        r.source_language == req.source_lang,
        r.formality is None,
        r.preserve_formatting is None,
{
    let mut text: Vec<String> = Vec::new();
    text.push(req.text.clone());
    TranslationRequest {
        text,
        target_language: req.target_lang.clone(),
        source_language: clone_opt(&req.source_lang),
        formality: None,
        preserve_formatting: None,
    }
}

/// What the translation tool answers: the first translation's text and the
/// language it detected, each `null` when missing.
pub open spec fn translation_data(resp: TranslationResponse) -> JsonData {
    let first = if resp.translations@.len() == 0 { None } else { Some(resp.translations@[0]) };
    JsonData::Object(
        seq![
            ("translated_text"@, match first {
                Some(t) => JsonData::Str(t.text@),
                None => JsonData::Null,
            }),
            ("detected_language"@, match first {
                Some(t) => opt_text_data(t.detected_source_language),
                None => JsonData::Null,
            }),
        ],
    )
}

pub fn translation_json(resp: &TranslationResponse) -> (r: JsonValue)
    ensures
        r@ == translation_data(*resp),
{
    let mut m: Vec<(String, JsonValue)> = Vec::new();
    if resp.translations.len() == 0 {
        push_member(&mut m, "translated_text", JsonValue::Null);
        push_member(&mut m, "detected_language", JsonValue::Null);
    } else {
        let t = &resp.translations[0];
        push_member(&mut m, "translated_text", string_value(t.text.as_str()));
        push_member(&mut m, "detected_language", opt_text(&t.detected_source_language));
    }
    proof {
        assert(members_data(m@) =~= match translation_data(*resp) {
            JsonData::Object(ms) => ms,
            _ => Seq::empty(),
        });
    }
    JsonValue::Object(m)
}

/// What the language detection tool answers.
pub fn detection_json(language: &str) -> (r: JsonValue)
    ensures
        r@ == JsonData::Object(seq![("detected_language"@, JsonData::Str(language@))]),
{
    let mut m: Vec<(String, JsonValue)> = Vec::new();
    push_member(&mut m, "detected_language", string_value(language));
    proof {
        assert(members_data(m@) =~= seq![("detected_language"@, JsonData::Str(language@))]);
    }
    JsonValue::Object(m)
}

} // verus!
