use swissknife_ai_sdk::json::{JsonNumber, JsonValue};
use swissknife_ai_sdk::llm::anthropic::{
    convert_request, convert_response, parse_anthropic_sse, stream_event, AnthropicClient, AnthropicContent,
    AnthropicContentBlock, AnthropicResponse, AnthropicResponseContent, AnthropicStreamDelta, AnthropicStreamEvent,
    AnthropicStreamUsage, AnthropicUsage,
};
use swissknife_ai_sdk::llm::chat::{
    flatten_content, role_str, vision_chat_request, vision_response, ChatChoice, ChatMessage, ChatRequest, ChatResponse,
    ChatTool, ContentPart, FunctionCall, FunctionDefinition, ImageContent, MessageContent, MessageRole, ToolCall, Usage,
    VisionRequest,
};
use swissknife_ai_sdk::http::HttpMethod;
use swissknife_ai_sdk::llm::ProviderConfig;

fn msg(role: MessageRole, content: MessageContent) -> ChatMessage {
    ChatMessage { role, content, name: None, tool_call_id: None, tool_calls: None }
}

fn text(role: MessageRole, t: &str) -> ChatMessage {
    msg(role, MessageContent::Text(t.to_string()))
}

fn request(messages: Vec<ChatMessage>) -> ChatRequest {
    ChatRequest {
        model: "m".to_string(),
        messages,
        max_tokens: None,
        stop: None,
        tools: None,
        tool_choice: None,
        response_format: None,
    }
}

#[test]
fn anthropic_client_headers() {
    let c = AnthropicClient::from_api_key("k".to_string());
    let r = c.request(HttpMethod::Post, "/messages");
    assert_eq!(r.url, "https://api.anthropic.com/v1/messages");
    assert_eq!(r.headers, vec![
        ("x-api-key".to_string(), "k".to_string()),
        ("anthropic-version".to_string(), "2023-06-01".to_string()),
        ("content-type".to_string(), "application/json".to_string()),
    ]);
    let c = AnthropicClient::new(ProviderConfig::new("k".to_string()).with_base_url("http://local".to_string()));
    assert_eq!(c.request(HttpMethod::Get, "/x").url, "http://local/x");
}

#[test]
fn system_messages_become_the_system_prompt() {
    let r = convert_request(&request(vec![
        text(MessageRole::System, "first"),
        text(MessageRole::User, "hi"),
        text(MessageRole::System, "second"),
        msg(MessageRole::System, MessageContent::Parts(vec![])),
    ]));
    assert_eq!(r.system.as_deref(), Some("second"));
    assert_eq!(r.messages.len(), 1);
    assert_eq!(r.messages[0].role, "user");
    assert!(matches!(&r.messages[0].content, AnthropicContent::Text(t) if t == "hi"));
    assert_eq!(r.max_tokens, 4096);
    assert!(!r.stream);
    assert!(r.tools.is_none());
}

#[test]
fn user_parts_keep_texts_and_inline_images() {
    let parts = vec![
        ContentPart::Text { text: "look".to_string() },
        ContentPart::Image { image: ImageContent { url: None, base64: Some("AAA".to_string()), media_type: Some("image/png".to_string()) } },
        ContentPart::Image { image: ImageContent { url: Some("http://i".to_string()), base64: None, media_type: None } },
    ];
    let mut req = request(vec![msg(MessageRole::User, MessageContent::Parts(parts))]);
    req.max_tokens = Some(10);
    let r = convert_request(&req);
    assert_eq!(r.max_tokens, 10);
    match &r.messages[0].content {
        AnthropicContent::Blocks(blocks) => {
            assert_eq!(blocks.len(), 2);
            assert!(matches!(&blocks[0], AnthropicContentBlock::Text { text } if text == "look"));
            match &blocks[1] {
                AnthropicContentBlock::Image { source } => {
                    assert_eq!(source.source_type, "base64");
                    assert_eq!(source.media_type, "image/png");
                    assert_eq!(source.data, "AAA");
                },
                other => panic!("unexpected {:?}", other),
            }
        },
        other => panic!("unexpected {:?}", other),
    }
}

#[test]
fn assistant_tool_calls_and_tool_results() {
    let mut a = text(MessageRole::Assistant, "calling");
    a.tool_calls = Some(vec![ToolCall {
        id: "c1".to_string(),
        call_type: "function".to_string(),
        function: FunctionCall { name: "f".to_string(), arguments: "{\"x\":1}".to_string() },
    }, ToolCall {
        id: "c2".to_string(),
        call_type: "function".to_string(),
        function: FunctionCall { name: "g".to_string(), arguments: "not json".to_string() },
    }]);
    let mut t = text(MessageRole::Tool, "42");
    t.tool_call_id = Some("c1".to_string());
    let orphan = text(MessageRole::Tool, "lost");
    let r = convert_request(&request(vec![a, t, orphan, msg(MessageRole::Assistant, MessageContent::Parts(vec![]))]));
    assert_eq!(r.messages.len(), 3);
    assert_eq!(r.messages[0].role, "assistant");
    match &r.messages[0].content {
        AnthropicContent::Blocks(b) => {
            assert_eq!(b.len(), 3);
            match &b[1] {
                AnthropicContentBlock::ToolUse { id, name, input: JsonValue::Object(members) } => {
                    assert_eq!((id.as_str(), name.as_str()), ("c1", "f"));
                    assert_eq!(members.len(), 1);
                    assert_eq!(members[0].0, "x");
                    assert!(matches!(members[0].1, JsonValue::Number(JsonNumber::PosInt(1))));
                },
                other => panic!("unexpected {:?}", other),
            }
            assert!(matches!(&b[2], AnthropicContentBlock::ToolUse { id, input: JsonValue::Null, .. } if id == "c2"));
        },
        other => panic!("unexpected {:?}", other),
    }
    assert_eq!(r.messages[1].role, "user");
    assert!(matches!(&r.messages[1].content, AnthropicContent::Blocks(b)
        if matches!(&b[0], AnthropicContentBlock::ToolResult { tool_use_id, content } if tool_use_id == "c1" && content == "42")));
    assert!(matches!(&r.messages[2].content, AnthropicContent::Text(t) if t.is_empty()));
}

#[test]
fn tools_and_stop_sequences_carry_over() {
    let mut req = request(vec![]);
    req.stop = Some(vec!["END".to_string()]);
    req.tools = Some(vec![ChatTool {
        tool_type: "function".to_string(),
        function: FunctionDefinition { name: "f".to_string(), description: Some("d".to_string()), parameters: JsonValue::Null },
    }]);
    let r = convert_request(&req);
    assert_eq!(r.stop_sequences, Some(vec!["END".to_string()]));
    let tools = r.tools.unwrap();
    assert_eq!(tools.len(), 1);
    assert_eq!(tools[0].name, "f");
    assert_eq!(tools[0].description.as_deref(), Some("d"));
    assert!(tools[0].input_schema.is_null());
}

#[test]
fn responses_join_text_and_collect_tool_uses() {
    let resp = AnthropicResponse {
        id: "r1".to_string(),
        model: "model-x".to_string(),
        content: vec![
            AnthropicResponseContent::Text { text: "Hello ".to_string() },
            AnthropicResponseContent::ToolUse { id: "t1".to_string(), name: "search".to_string(), input: "{}".to_string() },
            AnthropicResponseContent::Text { text: "world".to_string() },
        ],
        stop_reason: Some("tool_use".to_string()),
        usage: AnthropicUsage { input_tokens: 10, output_tokens: 5 },
    };
    let r = convert_response(resp);
    assert_eq!(r.id, "r1");
    assert_eq!(r.choices.len(), 1);
    let c = &r.choices[0];
    assert_eq!(c.index, 0);
    assert_eq!(c.finish_reason.as_deref(), Some("tool_use"));
    assert!(matches!(&c.message.content, MessageContent::Text(t) if t == "Hello world"));
    let calls = c.message.tool_calls.as_ref().unwrap();
    assert_eq!(calls.len(), 1);
    assert_eq!(calls[0].call_type, "function");
    assert_eq!(calls[0].function.arguments, "{}");
    assert_eq!(r.usage, Some(Usage { prompt_tokens: 10, completion_tokens: 5, total_tokens: 15 }));
    assert_eq!(r.content(), Some("Hello world"));
}

#[test]
fn responses_without_tool_uses_have_no_calls() {
    let resp = AnthropicResponse {
        id: "r".to_string(),
        model: "m".to_string(),
        content: vec![],
        stop_reason: None,
        usage: AnthropicUsage { input_tokens: 0, output_tokens: 0 },
    };
    let r = convert_response(resp);
    assert!(r.choices[0].message.tool_calls.is_none());
    assert_eq!(r.content(), Some(""));
}

fn event(kind: &str, delta: Option<AnthropicStreamDelta>, usage: Option<u32>) -> AnthropicStreamEvent {
    AnthropicStreamEvent {
        event_type: kind.to_string(),
        delta,
        usage: usage.map(|n| AnthropicStreamUsage { output_tokens: n }),
    }
}

#[test]
fn stream_events_map_to_chat_events() {
    let e = stream_event(&event("content_block_delta", Some(AnthropicStreamDelta { text: Some("hi".to_string()), stop_reason: None }), None)).unwrap();
    assert_eq!(e.delta.unwrap().content.as_deref(), Some("hi"));
    assert!(stream_event(&event("content_block_delta", None, None)).is_none());
    let e = stream_event(&event("message_stop", None, None)).unwrap();
    assert_eq!(e.finish_reason.as_deref(), Some("stop"));
    let e = stream_event(&event("message_delta", Some(AnthropicStreamDelta { text: None, stop_reason: Some("end_turn".to_string()) }), Some(7))).unwrap();
    assert_eq!(e.finish_reason.as_deref(), Some("end_turn"));
    assert_eq!(e.usage, Some(Usage { prompt_tokens: 0, completion_tokens: 7, total_tokens: 7 }));
    assert!(stream_event(&event("ping", None, None)).is_none());
}

#[test]
fn first_meaningful_event_wins() {
    let events = vec![None, Some(event("ping", None, None)), Some(event("message_stop", None, None)), Some(event("message_delta", None, Some(1)))];
    let e = parse_anthropic_sse(&events).unwrap();
    assert_eq!(e.finish_reason.as_deref(), Some("stop"));
    assert!(parse_anthropic_sse(&vec![None]).is_none());
}

#[test]
fn content_flattening_and_roles() {
    let parts = MessageContent::Parts(vec![
        ContentPart::Text { text: "a".to_string() },
        ContentPart::Image { image: ImageContent { url: None, base64: None, media_type: None } },
        ContentPart::Text { text: "b".to_string() },
    ]);
    assert_eq!(flatten_content(&parts), "a\nb");
    assert_eq!(flatten_content(&MessageContent::Text("t".to_string())), "t");
    assert_eq!(role_str(MessageRole::Tool), "tool");
    assert_eq!(role_str(MessageRole::System), "system");
}

#[test]
fn vision_requests_and_answers() {
    let req = VisionRequest {
        model: "v".to_string(),
        prompt: "what?".to_string(),
        images: vec![ImageContent { url: Some("http://i".to_string()), base64: None, media_type: None }],
        max_tokens: Some(5),
    };
    let chat = vision_chat_request(&req);
    assert_eq!(chat.model, "v");
    assert_eq!(chat.messages.len(), 1);
    assert_eq!(chat.messages[0].role, MessageRole::User);
    match &chat.messages[0].content {
        MessageContent::Parts(p) => {
            assert_eq!(p.len(), 2);
            assert!(matches!(&p[0], ContentPart::Text { text } if text == "what?"));
            assert!(matches!(&p[1], ContentPart::Image { image } if image.url.as_deref() == Some("http://i")));
        },
        other => panic!("unexpected {:?}", other),
    }
    let resp = ChatResponse {
        id: "i".to_string(),
        model: "v".to_string(),
        choices: vec![ChatChoice { index: 0, message: text(MessageRole::Assistant, "a cat"), finish_reason: None }],
        usage: None,
    };
    let v = vision_response(resp);
    assert_eq!(v.content, "a cat");
    let empty = ChatResponse { id: "i".to_string(), model: "v".to_string(), choices: vec![], usage: None };
    assert_eq!(vision_response(empty).content, "");
}
