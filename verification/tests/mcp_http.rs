use swissknife_ai_sdk::json::{JsonNumber, JsonValue};
use swissknife_ai_sdk::mcp::http::{
    call_by_body_response, call_response, health_body, tool_result_event, McpHttpServer, McpHttpServerConfig,
};

fn text(s: &str) -> JsonValue {
    JsonValue::String(s.to_string())
}

fn member<'a>(v: &'a JsonValue, key: &str) -> Option<&'a JsonValue> {
    v.get(key)
}

#[test]
fn default_config_names_the_server() {
    let c = McpHttpServerConfig::default();
    assert_eq!(c.name, "swissknife-mcp");
    assert_eq!(c.version, "0.1.0");
    assert_eq!(c.cors_origins, vec!["*".to_string()]);
}

#[test]
fn unknown_tool_is_answered_not_found() {
    let (status, body) = call_response("nope", None);
    assert_eq!(status, 404);
    assert!(!body.success);
    assert!(body.result.is_none());
    assert_eq!(body.error.as_deref(), Some("Tool 'nope' not found"));
}

#[test]
fn successful_call_is_answered_ok() {
    let (status, body) = call_response("t", Some(Ok(text("done"))));
    assert_eq!(status, 200);
    assert!(body.success);
    assert_eq!(body.result.as_ref().and_then(|v| v.as_str()), Some("done"));
    assert!(body.error.is_none());
}

#[test]
fn failed_call_is_answered_internal_error() {
    let (status, body) = call_response("t", Some(Err("boom".to_string())));
    assert_eq!(status, 500);
    assert!(!body.success);
    assert!(body.result.is_none());
    assert_eq!(body.error.as_deref(), Some("boom"));
}

#[test]
fn body_call_announces_result() {
    let (status, body, event) = call_by_body_response("web_search", Some(Ok(text("r"))));
    assert_eq!(status, 200);
    assert!(body.success);
    let event = event.expect("an event");
    assert_eq!(event.event_type, "tool_result");
    assert_eq!(member(&event.data, "tool").and_then(|v| v.as_str()), Some("web_search"));
    assert_eq!(member(&event.data, "result").and_then(|v| v.as_str()), Some("r"));
}

#[test]
fn body_call_failure_announces_nothing() {
    let (status, _, event) = call_by_body_response("x", Some(Err("bad".to_string())));
    assert_eq!(status, 500);
    assert!(event.is_none());
    let (status, body, event) = call_by_body_response("x", None);
    assert_eq!(status, 404);
    assert_eq!(body.error.as_deref(), Some("Tool 'x' not found"));
    assert!(event.is_none());
}

#[test]
fn tool_result_event_data() {
    let e = tool_result_event("a", JsonValue::Number(JsonNumber::PosInt(3)));
    assert_eq!(e.event_type, "tool_result");
    assert_eq!(member(&e.data, "result").and_then(|v| v.as_u64()), Some(3));
}

#[test]
fn health_body_reports_ok_and_time() {
    let b = health_body("2024-01-01T00:00:00Z");
    assert_eq!(b.str_member("status"), Some("ok"));
    assert_eq!(b.str_member("timestamp"), Some("2024-01-01T00:00:00Z"));
}

#[test]
fn registering_makes_a_tool_callable() {
    let mut s = McpHttpServer::new(McpHttpServerConfig::default());
    assert!(!s.has_tool("echo"));
    s.register_tool("echo", "Echo", JsonValue::Null);
    assert!(s.has_tool("echo"));
    let t = s.tool("echo").expect("registered");
    assert_eq!(t.name, "echo");
    assert_eq!(t.description, "Echo");
    assert!(!s.has_tool("other"));
}

#[test]
fn registering_twice_replaces() {
    let mut s = McpHttpServer::new(McpHttpServerConfig::default());
    s.register_tool("a", "first", JsonValue::Null);
    s.register_tool("b", "second", JsonValue::Null);
    s.register_tool("a", "third", JsonValue::Bool(true));
    let list = s.tool_list();
    assert_eq!(list.len(), 2);
    assert_eq!(list[0].name, "a");
    assert_eq!(list[0].description, "third");
    assert_eq!(list[1].name, "b");
    let info = s.info();
    assert_eq!(info.name, "swissknife-mcp");
    assert_eq!(info.version, "0.1.0");
    assert_eq!(info.tools.len(), 2);
}

#[test]
fn broadcast_builds_the_event() {
    let s = McpHttpServer::new(McpHttpServerConfig::default());
    let e = s.broadcast("ping", JsonValue::Null);
    assert_eq!(e.event_type, "ping");
    assert!(e.data.is_null());
}
