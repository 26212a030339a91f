use swissknife_ai_sdk::claude_history::{
    collect_todos, jsonl_records, keeps_session_line, keeps_session_record, session_lines, project_names, session_id_of, session_names, todo_owner,
    todos_in_dir, ClaudeHistoryImporter, ClaudeMessage, ClaudeMessageInner, RawTodoItem, TodoDir, TodoFile,
};
use swissknife_ai_sdk::error::Error;
use swissknife_ai_sdk::json::JsonValue;
use swissknife_ai_sdk::memory::{check_embedding_dim, next_sequence, tool_call_content, ActionType, MemoryConfig};

fn obj(pairs: Vec<(&str, JsonValue)>) -> JsonValue {
    JsonValue::Object(pairs.into_iter().map(|(k, v)| (k.to_string(), v)).collect())
}

fn s(t: &str) -> JsonValue {
    JsonValue::String(t.to_string())
}

fn message(content: Option<JsonValue>) -> ClaudeMessage {
    ClaudeMessage {
        uuid: "u".to_string(),
        parent_uuid: None,
        session_id: Some("s".to_string()),
        message_type: "assistant".to_string(),
        timestamp: None,
        message: Some(ClaudeMessageInner { role: Some("assistant".to_string()), content, model: None }),
        cwd: None,
        git_branch: None,
        summary: None,
    }
}

#[test]
fn message_text_from_string_or_blocks() {
    assert_eq!(message(Some(s("plain"))).content_text(), Some("plain".to_string()));
    let blocks = JsonValue::Array(vec![
        obj(vec![("type", s("text")), ("text", s("a"))]),
        obj(vec![("type", s("thinking")), ("thinking", s("hmm"))]),
        obj(vec![("type", s("text")), ("text", s("b"))]),
        obj(vec![("type", s("tool_use")), ("id", s("t1")), ("name", s("grep")), ("input", obj(vec![]))]),
    ]);
    let m = message(Some(blocks));
    assert_eq!(m.content_text(), Some("a\nb".to_string()));
    assert_eq!(m.thinking_text(), Some("hmm".to_string()));
    let uses = m.tool_uses();
    assert_eq!(uses.len(), 1);
    assert_eq!(uses[0].id, "t1");
    assert_eq!(uses[0].name, "grep");
    assert_eq!(m.role(), Some("assistant"));
    assert_eq!(message(None).content_text(), None);
    assert_eq!(message(Some(JsonValue::Array(vec![]))).content_text(), None);
}

#[test]
fn tool_use_with_missing_fields() {
    let m = message(Some(JsonValue::Array(vec![obj(vec![("type", s("tool_use"))])])));
    let uses = m.tool_uses();
    assert_eq!(uses[0].id, "");
    assert!(uses[0].input.is_null());
}

#[test]
fn todo_file_names_name_session_and_agent() {
    assert_eq!(todo_owner("abc-agent-def.json"), Some(("abc".to_string(), "def".to_string())));
    assert_eq!(todo_owner("abc-agent-x-agent-y.json"), Some(("abc".to_string(), "x-agent-y".to_string())));
    assert_eq!(todo_owner("abc.json"), None);
    assert_eq!(todo_owner("abc-agent-def.txt"), None);
}

#[test]
fn todos_are_collected_in_order() {
    let item = |c: &str| RawTodoItem { content: c.to_string(), status: "pending".to_string(), active_form: format!("{}ing", c) };
    let files = vec![
        TodoFile { file_name: "s1-agent-a1.json".to_string(), items: Some(vec![item("x"), item("y")]) },
        TodoFile { file_name: "broken-agent-b.json".to_string(), items: None },
        TodoFile { file_name: "notes.txt".to_string(), items: Some(vec![item("z")]) },
        TodoFile { file_name: "s2-agent-a2.json".to_string(), items: Some(vec![item("w")]) },
    ];
    let todos = collect_todos(&files);
    let got: Vec<(String, String, String)> = todos.into_iter().map(|t| (t.session_id, t.agent_id, t.content)).collect();
    assert_eq!(got, vec![
        ("s1".to_string(), "a1".to_string(), "x".to_string()),
        ("s1".to_string(), "a1".to_string(), "y".to_string()),
        ("s2".to_string(), "a2".to_string(), "w".to_string()),
    ]);
}

#[test]
fn todo_directory_outcomes() {
    assert!(matches!(todos_in_dir(&TodoDir::Missing), Ok(v) if v.is_empty()));
    assert!(matches!(todos_in_dir(&TodoDir::Unreadable("denied".to_string())), Err(Error::Internal(m)) if m == "denied"));
    let item = RawTodoItem { content: "x".to_string(), status: "done".to_string(), active_form: "xing".to_string() };
    let dir = TodoDir::Files(vec![TodoFile { file_name: "s-agent-a.json".to_string(), items: Some(vec![item]) }]);
    match todos_in_dir(&dir) {
        Ok(v) => {
            assert_eq!(v.len(), 1);
            assert_eq!((v[0].session_id.as_str(), v[0].agent_id.as_str(), v[0].status.as_str()), ("s", "a", "done"));
        },
        Err(e) => panic!("unexpected {:?}", e),
    }
}

#[test]
fn importer_paths() {
    let i = ClaudeHistoryImporter::with_claude_dir("/home/u/.data".to_string());
    assert_eq!(i.history_file(), "/home/u/.data/history.jsonl");
    assert_eq!(i.projects_dir(), "/home/u/.data/projects");
    assert_eq!(i.todos_dir(), "/home/u/.data/todos");
    assert_eq!(i.project_dir("/home/u/proj"), "/home/u/.data/projects/-home-u-proj");
    assert_eq!(i.session_file("/p", "abc"), "/home/u/.data/projects/-p/abc.jsonl");
}

#[test]
fn session_listing() {
    let names = vec!["a.jsonl".to_string(), "b.txt".to_string(), "c.jsonl.jsonl".to_string()];
    assert_eq!(session_names(&names), vec!["a".to_string(), "c".to_string()]);
    let entries = vec![("p1".to_string(), true), ("f".to_string(), false), ("p2".to_string(), true)];
    assert_eq!(project_names(&entries), vec!["p1".to_string(), "p2".to_string()]);
    assert_eq!(session_id_of("abc.jsonl"), Some("abc".to_string()));
    assert_eq!(session_id_of("abc.json"), None);
    assert_eq!(session_id_of("noext"), None);
}

#[test]
fn transcript_records() {
    assert_eq!(jsonl_records("{\"a\":1}\n\n  \n{\"b\":2}\r\n"), vec!["{\"a\":1}".to_string(), "{\"b\":2}".to_string()]);
    assert!(keeps_session_record("user"));
    assert!(!keeps_session_record("summary"));
    assert!(!keeps_session_record("file-history-snapshot"));
}

#[test]
fn action_type_names_round_trip() {
    for t in [ActionType::Message, ActionType::ToolCall, ActionType::ToolResult, ActionType::Thinking] {
        assert_eq!(ActionType::from_str(t.as_str()), Some(t));
    }
    assert_eq!(ActionType::ToolCall.as_str(), "tool_call");
    assert_eq!(ActionType::from_str("other"), None);
}

#[test]
fn memory_settings_and_checks() {
    let c = MemoryConfig::new();
    assert_eq!(c.embedding_dim, 1024);
    let c = c.with_db_path("/tmp/x.db".to_string()).with_embedding_dim(8);
    assert_eq!(c.db_path.as_deref(), Some("/tmp/x.db"));
    assert_eq!(c.embedding_dim, 8);
    assert_eq!(MemoryConfig::default().embedding_dim, 0);
    assert_eq!(tool_call_content("grep", "{\"q\":1}"), "grep({\"q\":1})");
    assert!(check_embedding_dim(3, 3).is_ok());
    match check_embedding_dim(1024, 3) {
        Err(Error::InvalidParameter(m)) => assert_eq!(m, "Embedding dimension mismatch: expected 1024, got 3"),
        other => panic!("unexpected {:?}", other),
    }
    assert_eq!(next_sequence(Some(7)), 7);
    assert_eq!(next_sequence(None), 1);
}

#[test]
fn error_messages() {
    assert_eq!(Error::ToolNotFound("x".to_string()).message(), "Tool not found: x");
    assert_eq!(Error::MissingParameter("q".to_string()).message(), "Missing required parameter: q");
    assert_eq!(Error::Api { message: "m".to_string(), code: None }.message(), "API error: m");
    assert_eq!(Error::AuthRequired.message(), "Authentication required");
    assert_eq!(Error::RateLimited.message(), "Rate limited");
    assert_eq!(Error::Json("expected value".to_string()).message(), "JSON error: expected value");
    assert_eq!(Error::Http("timed out".to_string()).message(), "HTTP error: timed out");
    assert_eq!(Error::Internal("i".to_string()).message(), "Internal error: i");
    assert_eq!(Error::Provider("p".to_string()).message(), "Provider error: p");
    assert_eq!(Error::InvalidParameter("v".to_string()).message(), "Invalid parameter: v");
    assert_eq!(Error::ExecutionFailed("e".to_string()).message(), "Execution failed: e");
}

#[test]
fn transcript_lines_kept_as_messages() {
    assert!(keeps_session_line(r#"{"type":"user","message":{}}"#));
    assert!(keeps_session_line(r#"{"uuid":"u1"}"#));
    assert!(keeps_session_line(r#"{"type":5}"#));
    assert!(!keeps_session_line(r#"{"type":"summary"}"#));
    assert!(!keeps_session_line(r#"{"type":"file-history-snapshot"}"#));
    assert!(!keeps_session_line("not json"));
    let content = "{\"type\":\"user\"}\n\n   \n{\"type\":\"summary\"}\nbroken\n{\"type\":\"assistant\"}\r\n";
    assert_eq!(session_lines(content), vec!["{\"type\":\"user\"}".to_string(), "{\"type\":\"assistant\"}".to_string()]);
}
