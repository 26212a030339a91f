use swissknife_ai_sdk::llm::chat::{ChatChoice, ChatMessage, ChatResponse, MessageContent, MessageRole};
use swissknife_ai_sdk::llm::openai::OpenAIClient;
use swissknife_ai_sdk::llm::{ImageData, Translation, TranslationResponse};
use swissknife_ai_sdk::mcp::tools::llm::{
    chat_reply, chat_request_for, detection_json, embedding_request_for, image_request_for, images_json,
    not_configured, translation_json, translation_request_for, ChatRequest, EmbedRequest, ImageGenRequest, LlmTools,
    TranslateRequest,
};
use swissknife_ai_sdk::mcp::tools::payments::default_true;

#[test]
fn tools_start_unconfigured() {
    let t = LlmTools::new();
    assert!(t.openai.is_none() && t.anthropic.is_none() && t.mistral.is_none() && t.deepl.is_none() && t.stability.is_none());
    let t = LlmTools::default().with_openai(OpenAIClient::from_api_key("k".to_string()));
    assert!(t.openai.is_some() && t.anthropic.is_none());
    assert_eq!(not_configured("OpenAI"), "OpenAI client not configured");
    assert!(default_true());
}

#[test]
fn chat_tool_requests() {
    let req = ChatRequest { model: "m".to_string(), message: "hi".to_string(), system: Some("be brief".to_string()), max_tokens: Some(5) };
    let r = chat_request_for(&req, true);
    assert_eq!(r.messages.len(), 2);
    assert_eq!(r.messages[0].role, MessageRole::System);
    assert_eq!(r.messages[1].role, MessageRole::User);
    assert_eq!(r.max_tokens, Some(5));
    let r = chat_request_for(&req, false);
    assert_eq!(r.messages.len(), 1);
    assert!(matches!(&r.messages[0].content, MessageContent::Text(t) if t == "hi"));
}

#[test]
fn chat_tool_replies() {
    let msg = ChatMessage { role: MessageRole::Assistant, content: MessageContent::Text("yo".to_string()), name: None, tool_call_id: None, tool_calls: None };
    let resp = ChatResponse { id: "i".to_string(), model: "m".to_string(), choices: vec![ChatChoice { index: 0, message: msg, finish_reason: None }], usage: None };
    assert_eq!(chat_reply(&resp), "yo");
    let empty = ChatResponse { id: "i".to_string(), model: "m".to_string(), choices: vec![], usage: None };
    assert_eq!(chat_reply(&empty), "");
}

#[test]
fn embedding_and_image_requests() {
    let e = embedding_request_for(&EmbedRequest { text: "t".to_string(), model: None }, "text-embedding-3-small");
    assert_eq!(e.model, "text-embedding-3-small");
    assert_eq!(e.input, vec!["t".to_string()]);
    let e = embedding_request_for(&EmbedRequest { text: "t".to_string(), model: Some("x".to_string()) }, "d");
    assert_eq!(e.model, "x");
    let req = ImageGenRequest { prompt: "p".to_string(), model: None, size: Some("1024x1024".to_string()) };
    assert_eq!(image_request_for(&req, true).size.as_deref(), Some("1024x1024"));
    assert!(image_request_for(&req, false).size.is_none());
}

#[test]
fn image_answers() {
    let data = vec![ImageData { url: Some("u".to_string()), b64_json: None, revised_prompt: Some("r".to_string()) }];
    let v = images_json(&data, true);
    let first = &v.get("images").and_then(|i| i.as_array()).unwrap()[0];
    assert_eq!(first.str_member("url"), Some("u"));
    assert_eq!(first.str_member("revised_prompt"), Some("r"));
    let v = images_json(&data, false);
    let first = &v.get("images").and_then(|i| i.as_array()).unwrap()[0];
    assert!(first.get("base64").unwrap().is_null());
    assert_eq!(first.str_member("url"), Some("u"));
}

#[test]
fn translation_answers() {
    let r = translation_request_for(&TranslateRequest { text: "hi".to_string(), target_lang: "DE".to_string(), source_lang: None });
    assert_eq!(r.text, vec!["hi".to_string()]);
    assert_eq!(r.target_language, "DE");
    let resp = TranslationResponse { translations: vec![Translation { text: "Hallo".to_string(), detected_source_language: Some("EN".to_string()) }] };
    let v = translation_json(&resp);
    assert_eq!(v.str_member("translated_text"), Some("Hallo"));
    assert_eq!(v.str_member("detected_language"), Some("EN"));
    let v = translation_json(&TranslationResponse { translations: vec![] });
    assert!(v.get("translated_text").unwrap().is_null());
    assert_eq!(detection_json("FR").str_member("detected_language"), Some("FR"));
}
