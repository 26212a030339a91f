use vstd::prelude::*;

use crate::json::{JsonData, JsonValue};
use crate::mcp::router::McpRouter;
use crate::mcp::types::{
    JsonRpcError, JsonRpcResponse, RequestId, ServerCapabilities, ServerInfo, INVALID_PARAMS, INVALID_REQUEST,
    METHOD_NOT_FOUND, PARSE_ERROR,
};
use crate::text::{concat, owned, str_equal};

verus! {

/// The methods of the protocol that the handler serves.
#[derive(Debug, Clone, Copy, PartialEq, Eq, Structural)]
pub enum McpMethod {
    Initialize,
    Initialized,
    Ping,
    ListTools,
    CallTool,
    ListResources,
    ReadResource,
    ListPrompts,
    GetPrompt,
}

/// The method a name stands for.
pub open spec fn method_named(name: Seq<char>) -> Option<McpMethod> {
    if name == "initialize"@ {
        Some(McpMethod::Initialize)
    } else if name == "initialized"@ {
        Some(McpMethod::Initialized)
    } else if name == "ping"@ {
        Some(McpMethod::Ping)
    } else if name == "tools/list"@ {
        Some(McpMethod::ListTools)
    } else if name == "tools/call"@ {
        Some(McpMethod::CallTool)
    } else if name == "resources/list"@ {
        Some(McpMethod::ListResources)
    } else if name == "resources/read"@ {
        Some(McpMethod::ReadResource)
    } else if name == "prompts/list"@ {
        Some(McpMethod::ListPrompts)
    } else if name == "prompts/get"@ {
        Some(McpMethod::GetPrompt)
    } else {
        None
    }
}

/// The method a name stands for.
pub fn parse_method(name: &str) -> (r: Option<McpMethod>)
    ensures
        r == method_named(name@),
{
    if str_equal(name, "initialize") {
        Some(McpMethod::Initialize)
    } else if str_equal(name, "initialized") {
        Some(McpMethod::Initialized)
    } else if str_equal(name, "ping") {
        Some(McpMethod::Ping)
    } else if str_equal(name, "tools/list") {
        Some(McpMethod::ListTools)
    } else if str_equal(name, "tools/call") {
        Some(McpMethod::CallTool)
    } else if str_equal(name, "resources/list") {
        Some(McpMethod::ListResources)
    } else if str_equal(name, "resources/read") {
        Some(McpMethod::ReadResource)
    } else if str_equal(name, "prompts/list") {
        Some(McpMethod::ListPrompts)
    } else if str_equal(name, "prompts/get") {
        Some(McpMethod::GetPrompt)
    } else {
        None
    }
}

/// Methods that may be called before the server is initialized.
pub open spec fn open_before_init(m: McpMethod) -> bool {
    m == McpMethod::Initialize || m == McpMethod::Initialized || m == McpMethod::Ping
}

/// The message of a method that needs parameters and got none.
pub open spec fn missing_params_text(m: McpMethod) -> Option<Seq<char>> {
    match m {
        McpMethod::Initialize => Some("Missing initialize params"@),
        McpMethod::CallTool => Some("Missing tool call params"@),
        McpMethod::ReadResource => Some("Missing resource params"@),
        McpMethod::GetPrompt => Some("Missing prompt params"@),
        _ => None,
    }
}

/// How a request is refused before any work is done, if it is: an unknown
/// method, a method other than the opening ones before initialization, or
/// missing parameters. Each is a JSON-RPC error code and message.
pub open spec fn refusal(initialized: bool, method: Seq<char>, has_params: bool) -> Option<(i64, Seq<char>)> {
    match method_named(method) {
        None => Some((METHOD_NOT_FOUND, "Unknown method: "@ + method)),
        Some(m) => if !initialized && !open_before_init(m) {
            Some((INVALID_REQUEST, "Server not initialized"@))
        } else if !has_params && missing_params_text(m) is Some {
            Some((INVALID_PARAMS, missing_params_text(m)->0))
        } else {
            None
        },
    }
}

/// The answer of the protocol's session to requests, one at a time: it
/// remembers whether the client has initialized it.
#[derive(Debug)]
pub struct McpHandler<TP, RP, PP> {
    pub router: McpRouter<TP, RP, PP>,
    pub initialized: bool,
}

/// What the server reports when it is initialized.
#[derive(Debug)]
pub struct InitializeResult {
    pub protocol_version: String,
    pub capabilities: ServerCapabilities,
    pub server_info: ServerInfo,
    pub instructions: Option<String>,
}

/// What the session does with a request it serves: answer at once, or hand
/// the request to the router (listing or calling a tool, a resource or a
/// prompt), whose answer becomes the result.
#[derive(Debug)]
pub enum McpAction {
    Reply(JsonValue),
    Initialized(InitializeResult),
    ListTools,
    CallTool,
    ListResources,
    ReadResource,
    ListPrompts,
    GetPrompt,
}

/// The action for a method that the session serves (other than `initialize`).
pub open spec fn action_for(m: McpMethod) -> Option<McpAction> {
    match m {
        McpMethod::Initialized => Some(McpAction::Reply(JsonValue::Null)),
        McpMethod::ListTools => Some(McpAction::ListTools),
        McpMethod::CallTool => Some(McpAction::CallTool),
        McpMethod::ListResources => Some(McpAction::ListResources),
        McpMethod::ReadResource => Some(McpAction::ReadResource),
        McpMethod::ListPrompts => Some(McpAction::ListPrompts),
        McpMethod::GetPrompt => Some(McpAction::GetPrompt),
        _ => None,
    }
}

impl<TP, RP, PP> McpHandler<TP, RP, PP> {
    /// A session that is not initialized yet.
    pub fn new(router: McpRouter<TP, RP, PP>) -> (r: Self)
        ensures
            r.router == router,
            !r.initialized,
    {
        McpHandler { router, initialized: false }
    }

    /// Decides whether a request for `method` is to be served: `Ok` with the
    /// method to serve, or the error that answers it. Whether the request
    /// carried parameters is `has_params`.
    pub fn accept(&self, method: &str, has_params: bool) -> (r: Result<McpMethod, JsonRpcError>)
        ensures
            match r {
                Ok(m) => refusal(self.initialized, method@, has_params) is None && method_named(method@) == Some(m),
                Err(e) => refusal(self.initialized, method@, has_params) == Some((e.code, e.message@)),
            },
    {
        match parse_method(method) {
            None => Err(JsonRpcError::method_not_found(concat("Unknown method: ", method))),
            Some(m) => {
                let open = match m {
                    McpMethod::Initialize | McpMethod::Initialized | McpMethod::Ping => true,
                    _ => false,
                };
                if !self.initialized && !open {
                    return Err(JsonRpcError::invalid_request("Server not initialized"));
                }
                if !has_params {
                    match m {
                        McpMethod::Initialize => {
                            return Err(JsonRpcError::invalid_params(owned("Missing initialize params")));
                        },
                        McpMethod::CallTool => {
                            return Err(JsonRpcError::invalid_params(owned("Missing tool call params")));
                        },
                        McpMethod::ReadResource => {
                            return Err(JsonRpcError::invalid_params(owned("Missing resource params")));
                        },
                        McpMethod::GetPrompt => {
                            return Err(JsonRpcError::invalid_params(owned("Missing prompt params")));
                        },
                        _ => {},
                    }
                }
                Ok(m)
            },
        }
    }

    /// Completes an `initialize` request whose parameters were read: the
    /// session is initialized from now on, and reports the protocol version,
    /// what the router can do, its name and version, and its instructions.
    pub fn initialize(&mut self) -> (r: InitializeResult)
        ensures
            final(self).initialized,
            final(self).router == old(self).router,
            r.protocol_version@ == crate::mcp::types::mcp_version(),
            r.capabilities == old(self).router.capabilities_spec(),
            r.server_info.name == old(self).router.name,
            r.server_info.version == old(self).router.version,
            r.instructions == old(self).router.instructions,
    {
        let result = InitializeResult {
            protocol_version: owned("2024-11-05"),
            capabilities: self.router.capabilities(),
            server_info: self.router.server_info(),
            instructions: self.router.instructions(),
        };
        self.initialized = true;
        result
    }

    /// One request's step: the refusal that answers it, or what to do with
    /// it. `initialize` initializes the session and reports it, `initialized`
    /// answers `null`, `ping` an empty object; the other methods go to the
    /// router. Only `initialize` changes the session.
    pub fn step(&mut self, method: &str, has_params: bool) -> (r: Result<McpAction, JsonRpcError>)
        ensures
            final(self).router == old(self).router,
            match r {
                Err(e) => refusal(old(self).initialized, method@, has_params) == Some((e.code, e.message@))
                    && final(self).initialized == old(self).initialized,
                Ok(a) => refusal(old(self).initialized, method@, has_params) is None && match method_named(method@) {
                    Some(McpMethod::Initialize) => final(self).initialized && (a matches McpAction::Initialized(res)
                        && res.protocol_version@ == crate::mcp::types::mcp_version()
                        && res.capabilities == old(self).router.capabilities_spec()
                        && res.server_info.name == old(self).router.name
                        && res.server_info.version == old(self).router.version
                        && res.instructions == old(self).router.instructions),
                    Some(McpMethod::Ping) => final(self).initialized == old(self).initialized
                        && (a matches McpAction::Reply(v) && v@ == JsonData::Object(Seq::empty())),
                    Some(m) => final(self).initialized == old(self).initialized && action_for(m) == Some(a),
                    None => false,
                },
            },
    {
        let m = match self.accept(method, has_params) {
            Ok(m) => m,
            Err(e) => {
                return Err(e);
            },
        };
        match m {
            McpMethod::Initialize => Ok(McpAction::Initialized(self.initialize())),
            McpMethod::Initialized => Ok(McpAction::Reply(JsonValue::Null)),
            McpMethod::Ping => {
                let v = JsonValue::Object(Vec::new());
                proof {
                    assert(crate::json::members_data(Seq::<(String, JsonValue)>::empty()) =~= Seq::empty());
                }
                Ok(McpAction::Reply(v))
            },
            McpMethod::ListTools => Ok(McpAction::ListTools),
            McpMethod::CallTool => Ok(McpAction::CallTool),
            McpMethod::ListResources => Ok(McpAction::ListResources),
            McpMethod::ReadResource => Ok(McpAction::ReadResource),
            McpMethod::ListPrompts => Ok(McpAction::ListPrompts),
            McpMethod::GetPrompt => Ok(McpAction::GetPrompt),
        }
    }
}

/// The response to a request, with the result or the error it came to.
pub fn response(id: RequestId, outcome: Result<JsonValue, JsonRpcError>) -> (r: JsonRpcResponse)
    ensures
        r.jsonrpc@ == "2.0"@,
        r.id == id,
        match outcome {
            Ok(v) => r.result == Some(v) && r.error is None,
            Err(e) => r.result is None && r.error == Some(e),
        },
{
    match outcome {
        Ok(v) => JsonRpcResponse { jsonrpc: owned("2.0"), id, result: Some(v), error: None },
        Err(e) => JsonRpcResponse { jsonrpc: owned("2.0"), id, result: None, error: Some(e) },
    }
}

/// The response to a message that is not a request: a parse error for the
/// request id 0, with the reader's message.
pub fn parse_failure(message: String) -> (r: JsonRpcResponse)
    ensures
        r.jsonrpc@ == "2.0"@,
        r.id == RequestId::Number(0),
        r.result is None,
        r.error matches Some(e) && e.code == PARSE_ERROR && e.message == message,
{
    JsonRpcResponse { jsonrpc: owned("2.0"), id: RequestId::Number(0), result: None, error: Some(JsonRpcError::parse_error(message)) }
}

/// The session refuses, before it is initialized, every known method other
/// than `initialize`, `initialized` and `ping`, as an invalid request; once
/// initialized, it refuses no request for that reason. An unknown method is
/// refused in either state, and a method that needs parameters is refused
/// without them once it may be called.
pub proof fn law_initialization_gate(method: Seq<char>, has_params: bool, initialized: bool)
    ensures
        (method_named(method) matches Some(m) && !open_before_init(m))
            ==> refusal(false, method, has_params) == Some((INVALID_REQUEST, "Server not initialized"@)),
        refusal(true, method, has_params) matches Some(e) ==> e.0 != INVALID_REQUEST,
        method_named(method) is None ==> (refusal(initialized, method, has_params) matches Some(e) && e.0 == METHOD_NOT_FOUND),
        (method_named(method) matches Some(m) && (initialized || open_before_init(m)) && has_params)
            ==> refusal(initialized, method, has_params) is None,
{
}

} // verus!
