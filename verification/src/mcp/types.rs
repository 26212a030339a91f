use vstd::prelude::*;

use crate::json::{JsonData, JsonValue};
use crate::text::owned;

verus! {

/// The protocol version the server speaks.
pub open spec fn mcp_version() -> Seq<char> {
    "2024-11-05"@
}

/// A tool that a provider offers.
#[derive(Debug)]
pub struct ToolDefinition {
    pub name: String,
    pub description: Option<String>,
    pub input_schema: JsonValue,
}

impl ToolDefinition {
    /// A tool with a name, no description, and an empty object schema.
    pub fn new(name: &str) -> (r: Self)
        ensures
            r.name@ == name@,
            r.description is None,
            r.input_schema@ == JsonData::Object(seq![("type"@, JsonData::Str("object"@))]),
    {
        let mut m: Vec<(String, JsonValue)> = Vec::new();
        crate::json::push_member(&mut m, "type", crate::json::string_value("object"));
        proof {
            assert(crate::json::members_data(m@) =~= seq![("type"@, JsonData::Str("object"@))]);
        }
        ToolDefinition { name: owned(name), description: None, input_schema: JsonValue::Object(m) }
    }

    pub fn with_description(self, description: &str) -> (r: Self)
        ensures
            r.name == self.name,
            r.description matches Some(d) && d@ == description@,
            r.input_schema == self.input_schema,
    {
        ToolDefinition { description: Some(owned(description)), ..self }
    }

    pub fn with_schema(self, schema: JsonValue) -> (r: Self)
        ensures
            r.name == self.name,
            r.description == self.description,
            r.input_schema == schema,
    {
        ToolDefinition { input_schema: schema, ..self }
    }
}

/// One piece of what a tool gives back.
#[derive(Debug)]
pub enum ToolContent {
    Text(String),
    Json(JsonValue),
}

/// What a tool call gives back, and whether it is an error.
#[derive(Debug)]
pub struct ToolResult {
    pub content: Vec<ToolContent>,
    pub is_error: bool,
}

impl ToolResult {
    /// A result made of one text.
    pub fn text(text: String) -> (r: Self)
        ensures
            r.content@.len() == 1,
            r.content@[0] == ToolContent::Text(text),
            !r.is_error,
    {
        let mut content: Vec<ToolContent> = Vec::new();
        content.push(ToolContent::Text(text));
        ToolResult { content, is_error: false }
    }

    /// A result made of one JSON value.
    pub fn json(value: JsonValue) -> (r: Self)
        ensures
            r.content@.len() == 1,
            r.content@[0] == ToolContent::Json(value),
            !r.is_error,
    {
        let mut content: Vec<ToolContent> = Vec::new();
        content.push(ToolContent::Json(value));
        ToolResult { content, is_error: false }
    }

    /// A failed call, with its message.
    pub fn error(message: String) -> (r: Self)
        ensures
            r.content@.len() == 1,
            r.content@[0] == ToolContent::Text(message),
            r.is_error,
    {
        let mut content: Vec<ToolContent> = Vec::new();
        content.push(ToolContent::Text(message));
        ToolResult { content, is_error: true }
    }
}

/// A resource that a provider offers, under a URI (or a URI prefix).
#[derive(Debug)]
pub struct ResourceDefinition {
    pub uri: String,
    pub name: String,
    pub description: Option<String>,
    pub mime_type: Option<String>,
}

/// A prompt that a provider offers.
#[derive(Debug)]
pub struct PromptDefinition {
    pub name: String,
    pub description: Option<String>,
}

/// The name and version a server reports.
#[derive(Debug)]
pub struct ServerInfo {
    pub name: String,
    pub version: String,
}

#[derive(Debug, Clone, Copy, PartialEq, Eq, Structural)]
pub struct ToolsCapability {
    pub list_changed: Option<bool>,
}

#[derive(Debug, Clone, Copy, PartialEq, Eq, Structural)]
pub struct ResourcesCapability {
    pub subscribe: Option<bool>,
    pub list_changed: Option<bool>,
}

#[derive(Debug, Clone, Copy, PartialEq, Eq, Structural)]
pub struct PromptsCapability {
    pub list_changed: Option<bool>,
}

/// What a server can do.
#[derive(Debug, Clone, Copy, PartialEq, Eq, Structural)]
pub struct ServerCapabilities {
    pub tools: Option<ToolsCapability>,
    pub resources: Option<ResourcesCapability>,
    pub prompts: Option<PromptsCapability>,
    pub logging: bool,
}

/// The id of a JSON-RPC request.
#[derive(Debug)]
pub enum RequestId {
    Number(i64),
    Text(String),
}

/// A JSON-RPC error.
#[derive(Debug)]
pub struct JsonRpcError {
    pub code: i64,
    pub message: String,
}

/// The error code of a message that is not JSON.
pub const PARSE_ERROR: i64 = -32700;

/// The error code of a request that cannot be served in the current state.
pub const INVALID_REQUEST: i64 = -32600;

/// The error code of an unknown method.
pub const METHOD_NOT_FOUND: i64 = -32601;

/// The error code of missing or malformed parameters.
pub const INVALID_PARAMS: i64 = -32602;

/// The error code of a failure while serving a request.
pub const INTERNAL_ERROR: i64 = -32603;

impl JsonRpcError {
    pub fn parse_error(message: String) -> (r: Self)
        ensures
            r.code == PARSE_ERROR,
            r.message == message,
    {
        JsonRpcError { code: PARSE_ERROR, message }
    }

    pub fn invalid_request(message: &str) -> (r: Self)
        ensures
            r.code == INVALID_REQUEST,
            r.message@ == message@,
    {
        JsonRpcError { code: INVALID_REQUEST, message: owned(message) }
    }

    pub fn method_not_found(message: String) -> (r: Self)
        ensures
            r.code == METHOD_NOT_FOUND,
            r.message == message,
    {
        JsonRpcError { code: METHOD_NOT_FOUND, message }
    }

    pub fn invalid_params(message: String) -> (r: Self)
        ensures
            r.code == INVALID_PARAMS,
            r.message == message,
    {
        JsonRpcError { code: INVALID_PARAMS, message }
    }

    pub fn internal_error(message: String) -> (r: Self)
        ensures
            r.code == INTERNAL_ERROR,
            r.message == message,
    {
        JsonRpcError { code: INTERNAL_ERROR, message }
    }
}

/// A JSON-RPC response: a result or an error, for the request of `id`.
#[derive(Debug)]
pub struct JsonRpcResponse {
    pub jsonrpc: String,
    pub id: RequestId,
    pub result: Option<JsonValue>,
    pub error: Option<JsonRpcError>,
}

} // verus!
