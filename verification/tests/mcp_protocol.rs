use swissknife_ai_sdk::error::Error;
use swissknife_ai_sdk::json::{JsonNumber, JsonValue};
use swissknife_ai_sdk::mcp::handler::{parse_failure, parse_method, response, McpAction, McpHandler, McpMethod};
use swissknife_ai_sdk::mcp::host::{call_text, HostContent};
use swissknife_ai_sdk::mcp::providers::{fetch_result, search_result, SearchHit, WebAction, WebSearchProvider};
use swissknife_ai_sdk::mcp::router::{
    concat_listings, prompt_not_found, resource_not_found, route_prompt, route_resource, route_tool, tool_not_found,
    McpRouter,
};
use swissknife_ai_sdk::mcp::types::{
    JsonRpcError, PromptDefinition, RequestId, ResourceDefinition, ToolContent, ToolDefinition, INVALID_PARAMS,
    INVALID_REQUEST, METHOD_NOT_FOUND, PARSE_ERROR,
};

type Router = McpRouter<u8, u8, u8>;

fn router() -> Router {
    McpRouter::new("srv".to_string(), "1.2.3".to_string())
}

fn tool(name: &str) -> ToolDefinition {
    ToolDefinition::new(name)
}

fn resource(uri: &str) -> ResourceDefinition {
    ResourceDefinition { uri: uri.to_string(), name: uri.to_string(), description: None, mime_type: None }
}

fn prompt(name: &str) -> PromptDefinition {
    PromptDefinition { name: name.to_string(), description: None }
}

#[test]
fn methods_are_parsed_by_name() {
    assert_eq!(parse_method("tools/call"), Some(McpMethod::CallTool));
    assert_eq!(parse_method("ping"), Some(McpMethod::Ping));
    assert_eq!(parse_method("tools/delete"), None);
}

#[test]
fn session_refuses_requests_before_initialize() {
    let mut h = McpHandler::new(router());
    let e = h.accept("tools/list", true).unwrap_err();
    assert_eq!(e.code, INVALID_REQUEST);
    assert_eq!(e.message, "Server not initialized");
    assert_eq!(h.accept("ping", false).unwrap(), McpMethod::Ping);
    let e = h.accept("initialize", false).unwrap_err();
    assert_eq!(e.code, INVALID_PARAMS);
    assert_eq!(e.message, "Missing initialize params");
    assert_eq!(h.accept("initialize", true).unwrap(), McpMethod::Initialize);
    let result = h.initialize();
    assert!(h.initialized);
    assert_eq!(result.server_info.name, "srv");
    assert_eq!(result.server_info.version, "1.2.3");
    assert_eq!(result.capabilities.tools, None);
    assert!(result.capabilities.logging);
    assert_eq!(h.accept("tools/list", false).unwrap(), McpMethod::ListTools);
    let e = h.accept("tools/call", false).unwrap_err();
    assert_eq!(e.message, "Missing tool call params");
    let e = h.accept("resources/read", false).unwrap_err();
    assert_eq!(e.message, "Missing resource params");
    let e = h.accept("prompts/get", false).unwrap_err();
    assert_eq!(e.message, "Missing prompt params");
}

#[test]
fn session_steps() {
    let mut h = McpHandler::new(router());
    assert!(matches!(h.step("ping", false), Ok(McpAction::Reply(JsonValue::Object(m))) if m.is_empty()));
    assert!(matches!(h.step("initialized", false), Ok(McpAction::Reply(JsonValue::Null))));
    assert_eq!(h.step("tools/list", false).unwrap_err().code, INVALID_REQUEST);
    assert!(!h.initialized);
    match h.step("initialize", true) {
        Ok(McpAction::Initialized(r)) => {
            assert_eq!(r.protocol_version, "2024-11-05");
            assert_eq!(r.server_info.name, "srv");
        },
        other => panic!("unexpected {:?}", other),
    }
    assert!(h.initialized);
    assert!(matches!(h.step("tools/list", false), Ok(McpAction::ListTools)));
    assert!(matches!(h.step("tools/call", true), Ok(McpAction::CallTool)));
    assert!(matches!(h.step("resources/read", true), Ok(McpAction::ReadResource)));
    assert!(matches!(h.step("prompts/get", true), Ok(McpAction::GetPrompt)));
    assert_eq!(h.step("prompts/get", false).unwrap_err().message, "Missing prompt params");
    assert_eq!(h.step("nope", true).unwrap_err().code, METHOD_NOT_FOUND);
}

#[test]
fn unknown_methods_are_refused_in_any_state() {
    let h = McpHandler::new(router());
    let e = h.accept("foo", true).unwrap_err();
    assert_eq!(e.code, METHOD_NOT_FOUND);
    assert_eq!(e.message, "Unknown method: foo");
}

#[test]
fn responses_carry_result_or_error() {
    let r = response(RequestId::Number(7), Ok(JsonValue::Null));
    assert_eq!(r.jsonrpc, "2.0");
    assert!(matches!(r.id, RequestId::Number(7)));
    assert!(r.result.is_some() && r.error.is_none());
    let r = response(RequestId::Text("a".to_string()), Err(JsonRpcError::internal_error("x".to_string())));
    assert!(r.result.is_none());
    assert_eq!(r.error.unwrap().message, "x");
    let r = parse_failure("bad json".to_string());
    assert!(matches!(r.id, RequestId::Number(0)));
    let e = r.error.unwrap();
    assert_eq!(e.code, PARSE_ERROR);
    assert_eq!(e.message, "bad json");
}

#[test]
fn capabilities_follow_providers() {
    let r = router().with_tool_provider(1).with_prompt_provider(2);
    let c = r.capabilities();
    assert_eq!(c.tools.and_then(|t| t.list_changed), Some(true));
    assert!(c.resources.is_none());
    assert_eq!(c.prompts.and_then(|p| p.list_changed), Some(true));
    let r = r.with_resource_provider(3).with_instructions("use me".to_string());
    let c = r.capabilities();
    assert_eq!(c.resources.map(|x| (x.subscribe, x.list_changed)), Some((Some(false), Some(true))));
    assert_eq!(r.instructions(), Some("use me".to_string()));
}

#[test]
fn routing_picks_first_offering_provider() {
    let listings = vec![vec![tool("a")], vec![tool("b"), tool("a")], vec![tool("c")]];
    assert_eq!(route_tool(&listings, "a"), Some(0));
    assert_eq!(route_tool(&listings, "b"), Some(1));
    assert_eq!(route_tool(&listings, "z"), None);
    let resources = vec![vec![resource("file:///docs/")], vec![resource("mem://x")]];
    assert_eq!(route_resource(&resources, "file:///docs/readme"), Some(0));
    assert_eq!(route_resource(&resources, "mem://x"), Some(1));
    assert_eq!(route_resource(&resources, "mem://"), None);
    let prompts = vec![vec![], vec![prompt("p")]];
    assert_eq!(route_prompt(&prompts, "p"), Some(1));
    assert_eq!(route_prompt(&prompts, "q"), None);
}

#[test]
fn not_found_answers() {
    let r = tool_not_found("zz");
    assert!(r.is_error);
    assert!(matches!(&r.content[0], ToolContent::Text(t) if t == "Tool not found: zz"));
    match resource_not_found("u://1") {
        Error::Api { message, code } => {
            assert_eq!(message, "Resource not found: u://1");
            assert_eq!(code.as_deref(), Some("NOT_FOUND"));
        },
        other => panic!("unexpected {:?}", other),
    }
    match prompt_not_found("p") {
        Error::Api { message, .. } => assert_eq!(message, "Prompt not found: p"),
        other => panic!("unexpected {:?}", other),
    }
}

#[test]
fn listings_are_concatenated_in_order() {
    assert_eq!(concat_listings(vec![vec![1, 2], vec![], vec![3]]), vec![1, 2, 3]);
}

#[test]
fn web_provider_tools_depend_on_tavily() {
    let without = WebSearchProvider::new(false).tools();
    assert_eq!(without.len(), 1);
    assert_eq!(without[0].name, "web_fetch");
    assert_eq!(without[0].description.as_deref(), Some("Fetch content from a URL"));
    let with = WebSearchProvider::new(false).with_tavily().tools();
    assert_eq!(with.len(), 2);
    assert_eq!(with[0].name, "tavily_search");
}

#[test]
fn web_provider_plans_calls() {
    let p = WebSearchProvider::new(true);
    let args = JsonValue::Object(vec![
        ("query".to_string(), JsonValue::String("q".to_string())),
        ("max_results".to_string(), JsonValue::Number(JsonNumber::PosInt(4294967301))),
    ]);
    match p.plan_call("tavily_search", &args).unwrap() {
        WebAction::Search { query, max_results } => {
            assert_eq!(query, "q");
            assert_eq!(max_results, Some(5));
        },
        other => panic!("unexpected {:?}", other),
    }
    assert!(matches!(WebSearchProvider::new(false).plan_call("tavily_search", &args),
        Err(Error::Provider(m)) if m == "Tavily not configured"));
    assert!(matches!(p.plan_call("tavily_search", &JsonValue::Null), Err(Error::MissingParameter(m)) if m == "query"));
    assert!(matches!(p.plan_call("web_fetch", &JsonValue::Null), Err(Error::MissingParameter(m)) if m == "url"));
    assert!(matches!(p.plan_call("other", &args), Err(Error::ToolNotFound(m)) if m == "other"));
    let fetch = JsonValue::Object(vec![("url".to_string(), JsonValue::String("http://x".to_string()))]);
    assert!(matches!(p.plan_call("web_fetch", &fetch), Ok(WebAction::Fetch { url }) if url == "http://x"));
}

#[test]
fn fetch_result_truncates_long_pages() {
    let r = fetch_result("200 OK", "hello");
    assert!(matches!(&r.content[0], ToolContent::Text(t) if t == "Status: 200 OK\nContent:\nhello"));
    let long = "é".repeat(6000);
    let r = fetch_result("200 OK", &long);
    match &r.content[0] {
        ToolContent::Text(t) => {
            let expected = format!("Status: 200 OK\nContent (truncated):\n{}", &long[..10000]);
            assert_eq!(t, &expected);
        },
        other => panic!("unexpected {:?}", other),
    }
    let exact = "a".repeat(10000);
    let r = fetch_result("200", &exact);
    assert!(matches!(&r.content[0], ToolContent::Text(t) if t.starts_with("Status: 200\nContent:\n")));
}

#[test]
fn search_result_lists_hits() {
    let hit = SearchHit {
        title: JsonValue::String("T".to_string()),
        url: JsonValue::String("U".to_string()),
        snippet: JsonValue::Null,
        content: JsonValue::Null,
    };
    let r = search_result("q", JsonValue::Null, vec![hit]);
    match &r.content[0] {
        ToolContent::Json(v) => {
            assert_eq!(v.str_member("query"), Some("q"));
            let results = v.get("results").and_then(|x| x.as_array()).unwrap();
            assert_eq!(results.len(), 1);
            assert_eq!(results[0].str_member("title"), Some("T"));
        },
        other => panic!("unexpected {:?}", other),
    }
}

#[test]
fn host_content_reads_as_lines() {
    let content = vec![
        HostContent::Text("hi".to_string()),
        HostContent::Image { mime_type: "image/png".to_string() },
        HostContent::Audio { mime_type: "audio/wav".to_string() },
        HostContent::Resource("R".to_string()),
        HostContent::ResourceLink("L".to_string()),
    ];
    assert_eq!(call_text(&content), "hi\n[Image: image/png]\n[Audio: audio/wav]\n[Resource: R]\n[ResourceLink: L]");
    assert_eq!(call_text(&vec![]), "");
}
