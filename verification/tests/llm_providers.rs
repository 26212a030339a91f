use swissknife_ai_sdk::error::Error;
use swissknife_ai_sdk::http::HttpMethod;
use swissknife_ai_sdk::llm::chat::{ChatMessage, ChatRequest, ContentPart, ImageContent, MessageContent, MessageRole, ToolCallDelta, Usage};
use swissknife_ai_sdk::llm::elevenlabs::{speech_to_text_unsupported, text_error, tts_path, ElevenLabsClient};
use swissknife_ai_sdk::llm::embedding::EmbeddingRequest;
use swissknife_ai_sdk::llm::huggingface::{
    chat_request, chat_response, convert_messages, embedding_path, stream_unsupported, HFChatResponse, HFChoice,
    HFResponseMessage, HFUsage, HuggingFaceClient,
};
use swissknife_ai_sdk::llm::mistral::{
    self, MistralChatRequest, MistralClient, MistralStreamChoice, MistralStreamChunk, MistralStreamDelta, MistralUsage,
};
use swissknife_ai_sdk::llm::openai::{self as oai, OpenAIClient, OpenAIStreamChoice, OpenAIStreamChunk, OpenAIStreamDelta};
use swissknife_ai_sdk::llm::sse::{data_payloads, stream_payload};
use swissknife_ai_sdk::llm::voyage::{self, VoyageClient};
use swissknife_ai_sdk::llm::ProviderConfig;

fn text(role: MessageRole, t: &str) -> ChatMessage {
    ChatMessage { role, content: MessageContent::Text(t.to_string()), name: None, tool_call_id: None, tool_calls: None }
}

fn request(messages: Vec<ChatMessage>) -> ChatRequest {
    ChatRequest { model: "m".to_string(), messages, max_tokens: Some(9), stop: None, tools: None, tool_choice: None, response_format: None }
}

#[test]
fn bearer_clients() {
    let h = HuggingFaceClient::from_api_key("k".to_string()).request(HttpMethod::Post, "/models");
    assert_eq!(h.url, "https://api-inference.huggingface.co/models");
    assert_eq!(h.headers, vec![("Authorization".to_string(), "Bearer k".to_string())]);
    let m = MistralClient::from_api_key("k".to_string()).request(HttpMethod::Post, "/chat/completions");
    assert_eq!(m.url, "https://api.mistral.ai/v1/chat/completions");
    assert_eq!(m.headers[1], ("Content-Type".to_string(), "application/json".to_string()));
    let v = VoyageClient::from_api_key("k".to_string()).request(HttpMethod::Post, "/embeddings");
    assert_eq!(v.url, "https://api.voyageai.com/v1/embeddings");
    let e = ElevenLabsClient::from_api_key("k".to_string()).request(HttpMethod::Get, "/voices");
    assert_eq!(e.url, "https://api.elevenlabs.io/v1/voices");
    assert_eq!(e.headers, vec![("xi-api-key".to_string(), "k".to_string())]);
}

#[test]
fn openai_client_names_the_organization() {
    let c = OpenAIClient::from_api_key("k".to_string());
    assert_eq!(c.request(HttpMethod::Post, "/x").headers.len(), 1);
    let mut cfg = ProviderConfig::new("k".to_string());
    cfg.organization = Some("org".to_string());
    let c = OpenAIClient::new(cfg);
    let r = c.request(HttpMethod::Post, "/chat/completions");
    assert_eq!(r.url, "https://api.openai.com/v1/chat/completions");
    assert_eq!(r.headers[1], ("OpenAI-Organization".to_string(), "org".to_string()));
}

#[test]
fn messages_become_role_and_text() {
    let parts = MessageContent::Parts(vec![
        ContentPart::Text { text: "x".to_string() },
        ContentPart::Image { image: ImageContent { url: None, base64: None, media_type: None } },
        ContentPart::Text { text: "y".to_string() },
    ]);
    let msgs = vec![
        text(MessageRole::System, "s"),
        ChatMessage { role: MessageRole::User, content: parts, name: None, tool_call_id: None, tool_calls: None },
    ];
    let hf = convert_messages(&msgs);
    assert_eq!(hf.len(), 2);
    assert_eq!((hf[0].role.as_str(), hf[0].content.as_str()), ("system", "s"));
    assert_eq!((hf[1].role.as_str(), hf[1].content.as_str()), ("user", "x\ny"));
    let req = request(msgs);
    let hr = chat_request(&req);
    assert_eq!(hr.max_tokens, Some(9));
    assert!(!hr.stream);
    let mr = MistralChatRequest::from_chat(&req);
    assert_eq!(mr.messages[1].content, "x\ny");
    assert!(mr.stream.is_none() && mr.safe_prompt.is_none() && mr.random_seed.is_none());
}

#[test]
fn hugging_face_answers() {
    let resp = HFChatResponse {
        id: None,
        choices: vec![HFChoice {
            index: 3,
            message: HFResponseMessage { role: "assistant".to_string(), content: "ok".to_string() },
            finish_reason: Some("stop".to_string()),
        }],
        usage: Some(HFUsage { prompt_tokens: 1, completion_tokens: 2, total_tokens: 3 }),
    };
    let r = chat_response("m".to_string(), resp);
    assert_eq!(r.id, "");
    assert_eq!(r.model, "m");
    assert_eq!(r.choices[0].index, 3);
    assert_eq!(r.choices[0].message.role, MessageRole::Assistant);
    assert_eq!(r.content(), Some("ok"));
    assert_eq!(r.usage, Some(Usage { prompt_tokens: 1, completion_tokens: 2, total_tokens: 3 }));
    assert_eq!(embedding_path("bge"), "/models/bge");
    assert!(matches!(stream_unsupported(), Error::Api { message, code: None } if message == "Streaming not supported for HuggingFace Inference API"));
}

#[test]
fn event_stream_payloads() {
    let chunk = "event: x\ndata: {\"a\":1}\r\n\ndata: [DONE]\n";
    assert_eq!(data_payloads(chunk), vec!["{\"a\":1}".to_string(), "[DONE]".to_string()]);
    assert_eq!(stream_payload(chunk), Some("{\"a\":1}".to_string()));
    assert_eq!(stream_payload("data:  [DONE] \n"), None);
    assert_eq!(stream_payload("nothing here"), None);
}

#[test]
fn mistral_chunks() {
    let c = MistralStreamChunk {
        id: "c".to_string(),
        choices: vec![MistralStreamChoice {
            delta: MistralStreamDelta { role: Some(MessageRole::Assistant), content: Some("hi".to_string()) },
            finish_reason: None,
        }],
        usage: Some(MistralUsage { prompt_tokens: 1, completion_tokens: 1, total_tokens: 2 }),
    };
    let e = mistral::stream_event(&c);
    assert_eq!(e.id.as_deref(), Some("c"));
    let d = e.delta.unwrap();
    assert_eq!(d.role, Some(MessageRole::Assistant));
    assert_eq!(d.content.as_deref(), Some("hi"));
    assert!(d.tool_calls.is_none());
    assert_eq!(e.usage.map(|u| u.total_tokens), Some(2));
    let empty = MistralStreamChunk { id: "d".to_string(), choices: vec![], usage: None };
    let e = mistral::stream_event(&empty);
    assert!(e.delta.is_none() && e.finish_reason.is_none());
}

#[test]
fn openai_chunks_keep_tool_call_pieces() {
    let piece = ToolCallDelta { index: 0, id: Some("t".to_string()), call_type: None, function_name: Some("f".to_string()), function_arguments: None };
    let c = OpenAIStreamChunk {
        id: "o".to_string(),
        choices: vec![OpenAIStreamChoice {
            delta: OpenAIStreamDelta { role: None, content: None, tool_calls: Some(vec![piece]) },
            finish_reason: Some("tool_calls".to_string()),
        }],
        usage: None,
    };
    let e = oai::stream_event(c);
    assert_eq!(e.finish_reason.as_deref(), Some("tool_calls"));
    assert_eq!(e.delta.unwrap().tool_calls.unwrap()[0].function_name.as_deref(), Some("f"));
}

#[test]
fn embedding_requests() {
    let req = EmbeddingRequest { model: "e".to_string(), input: vec!["a".to_string()], encoding_format: Some("float".to_string()), dimensions: None };
    let m = mistral::embedding_request(&req);
    assert_eq!(m.model, "e");
    assert_eq!(m.input, vec!["a".to_string()]);
    assert_eq!(m.encoding_format.as_deref(), Some("float"));
    let v = voyage::embedding_request(&req);
    assert_eq!(v.input_type.as_deref(), Some("document"));
    assert_eq!(v.truncation, Some(true));
    assert_eq!(voyage::embedding_usage(12), Usage { prompt_tokens: 12, completion_tokens: 0, total_tokens: 12 });
    match voyage::status_error("429 Too Many Requests", "slow down") {
        Error::Api { message, code } => {
            assert_eq!(message, "Voyage API error 429 Too Many Requests: slow down");
            assert_eq!(code.as_deref(), Some("429 Too Many Requests"));
        },
        other => panic!("unexpected {:?}", other),
    }
}

#[test]
fn eleven_labs_paths_and_errors() {
    assert_eq!(tts_path("v1"), "/text-to-speech/v1");
    assert!(matches!(text_error("bad".to_string()), Error::Api { message, code: None } if message == "bad"));
    assert!(matches!(speech_to_text_unsupported(), Error::Api { message, .. } if message == "ElevenLabs does not support speech-to-text"));
    assert!(matches!(mistral::api_error("m".to_string(), Some("t".to_string())), Error::Api { message, code: Some(c) } if message == "m" && c == "t"));
}
