use swissknife_ai_sdk::mcp::tools::communication::{sendgrid_content, SendGridEmailRequest};
use swissknife_ai_sdk::json::JsonValue;
use swissknife_ai_sdk::mcp::cli::{Cli, ServerMode, ToolCategory};
use swissknife_ai_sdk::mcp::http::{McpHttpServer, McpHttpServerConfig};
use swissknife_ai_sdk::mcp::runner::{
    call_builtin_tool, github_get_repo, llm_complete, query_database, register_tools, send_email,
    send_slack_message, web_search,
};

fn args(pairs: &[(&str, &str)]) -> JsonValue {
    JsonValue::Object(pairs.iter().map(|(k, v)| (k.to_string(), JsonValue::String(v.to_string()))).collect())
}

fn cli(tools: Vec<ToolCategory>) -> Cli {
    Cli {
        mode: ServerMode::Http,
        host: "127.0.0.1".to_string(),
        port: 3000,
        tools,
        name: "swissknife-mcp".to_string(),
        version: "0.1.0".to_string(),
        cors_origins: vec![],
        verbose: false,
    }
}

#[test]
fn cli_address_joins_host_and_port() {
    assert_eq!(cli(vec![]).addr(), "127.0.0.1:3000");
}

#[test]
fn all_category_selects_everything() {
    let c = cli(vec![ToolCategory::All]);
    assert!(c.has_category(ToolCategory::Search));
    assert!(c.has_category(ToolCategory::Queue));
    let c = cli(vec![ToolCategory::Search]);
    assert!(c.has_category(ToolCategory::Search));
    assert!(!c.has_category(ToolCategory::Llm));
}

#[test]
fn http_config_defaults_cors_to_any() {
    let c = cli(vec![]);
    let cfg = c.http_config();
    assert_eq!(cfg.cors_origins, vec!["*".to_string()]);
    let mut c = cli(vec![]);
    c.cors_origins = vec!["https://a.example".to_string()];
    assert_eq!(c.http_config().cors_origins, vec!["https://a.example".to_string()]);
}

#[test]
fn register_all_tools() {
    let mut s = McpHttpServer::new(McpHttpServerConfig::default());
    register_tools(&mut s, &cli(vec![ToolCategory::All]));
    let names: Vec<String> = s.tool_list().into_iter().map(|t| t.name).collect();
    assert_eq!(
        names,
        vec!["web_search", "github_get_repo", "send_email", "send_slack_message", "query_database", "llm_complete"]
    );
    let t = s.tool("web_search").unwrap();
    assert_eq!(t.description, "Search the web using configured search provider");
    let required = t.parameters.get("required").and_then(|r| r.as_array()).unwrap();
    assert_eq!(required.len(), 1);
    assert_eq!(required[0].as_str(), Some("query"));
    let max = t.parameters.get("properties").and_then(|p| p.get("max_results")).unwrap();
    assert_eq!(max.get("default").and_then(|d| d.as_u64()), Some(10));
}

#[test]
fn register_only_chosen_tools() {
    let mut s = McpHttpServer::new(McpHttpServerConfig::default());
    register_tools(&mut s, &cli(vec![ToolCategory::Communication, ToolCategory::Payments]));
    let names: Vec<String> = s.tool_list().into_iter().map(|t| t.name).collect();
    assert_eq!(names, vec!["send_email", "send_slack_message"]);
    let mut s = McpHttpServer::new(McpHttpServerConfig::default());
    register_tools(&mut s, &cli(vec![ToolCategory::Payments]));
    assert!(s.tool_list().is_empty());
}

#[test]
fn web_search_echoes_query() {
    let r = web_search(&args(&[("query", "rust")])).unwrap();
    assert_eq!(r.str_member("query"), Some("rust"));
    assert_eq!(r.get("results").and_then(|v| v.as_array()).map(|a| a.len()), Some(0));
    assert_eq!(r.str_member("message"), Some("Search provider not configured"));
    assert_eq!(web_search(&args(&[])).unwrap_err(), "Missing query parameter");
}

#[test]
fn github_repo_needs_owner_and_repo() {
    assert_eq!(github_get_repo(&args(&[("repo", "r")])).unwrap_err(), "Missing owner parameter");
    assert_eq!(github_get_repo(&args(&[("owner", "o")])).unwrap_err(), "Missing repo parameter");
    let r = github_get_repo(&args(&[("owner", "o"), ("repo", "r")])).unwrap();
    assert_eq!(r.str_member("owner"), Some("o"));
    assert_eq!(r.str_member("repo"), Some("r"));
    assert_eq!(r.str_member("message"), Some("GitHub client not configured"));
}

#[test]
fn communication_tools_echo() {
    assert_eq!(send_email(&args(&[])).unwrap_err(), "Missing 'to' parameter");
    let r = send_email(&args(&[("to", "a@b.c")])).unwrap();
    assert_eq!(r.str_member("to"), Some("a@b.c"));
    assert_eq!(r.str_member("message"), Some("Email provider not configured"));
    assert_eq!(send_slack_message(&args(&[])).unwrap_err(), "Missing channel parameter");
    let r = send_slack_message(&args(&[("channel", "#g")])).unwrap();
    assert_eq!(r.str_member("message"), Some("Slack client not configured"));
}

#[test]
fn database_and_llm_tools_echo() {
    let r = query_database(&args(&[("query", "select 1")])).unwrap();
    assert_eq!(r.str_member("message"), Some("Database client not configured"));
    assert_eq!(query_database(&args(&[])).unwrap_err(), "Missing query parameter");
    let r = llm_complete(&args(&[("prompt", "hi")])).unwrap();
    assert_eq!(r.str_member("prompt"), Some("hi"));
    assert_eq!(r.str_member("message"), Some("LLM provider not configured"));
    assert_eq!(llm_complete(&args(&[])).unwrap_err(), "Missing prompt parameter");
}

#[test]
fn non_string_argument_counts_as_missing() {
    let a = JsonValue::Object(vec![("query".to_string(), JsonValue::Bool(true))]);
    assert_eq!(web_search(&a).unwrap_err(), "Missing query parameter");
}

#[test]
fn builtin_dispatch() {
    assert!(call_builtin_tool("unknown", &args(&[])).is_none());
    let r = call_builtin_tool("send_email", &args(&[("to", "x")])).unwrap().unwrap();
    assert_eq!(r.str_member("to"), Some("x"));
}

#[test]
fn sendgrid_content_needs_text_or_html() {
    let req = |text: Option<&str>, html: Option<&str>| SendGridEmailRequest {
        to: "a@x".to_string(),
        from: "b@x".to_string(),
        subject: "s".to_string(),
        text: text.map(|t| t.to_string()),
        html: html.map(|h| h.to_string()),
    };
    assert_eq!(sendgrid_content(&req(None, None)), Err("Either text or html content is required".to_string()));
    assert_eq!(
        sendgrid_content(&req(Some("hi"), Some("<p>hi</p>"))),
        Ok(vec![("text/plain".to_string(), "hi".to_string()), ("text/html".to_string(), "<p>hi</p>".to_string())])
    );
    assert_eq!(sendgrid_content(&req(None, Some("<b/>"))), Ok(vec![("text/html".to_string(), "<b/>".to_string())]));
}
