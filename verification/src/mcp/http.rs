use vstd::prelude::*;

use crate::json::{members_data, push_member, string_value, JsonData, JsonValue};
use crate::table::KeyedTable;
use crate::text::owned;

verus! {

/// Settings of the HTTP server.
#[derive(Debug, Clone)]
pub struct McpHttpServerConfig {
    pub name: String,
    pub version: String,
    pub cors_origins: Vec<String>,
}

impl Default for McpHttpServerConfig {
    fn default() -> (r: Self)
        ensures
            r.name@ == "swissknife-mcp"@,
            r.version@ == "0.1.0"@,
            r.cors_origins@.len() == 1,
            r.cors_origins@[0]@ == "*"@,
    {
        let mut cors_origins: Vec<String> = Vec::new();
        cors_origins.push(owned("*"));
        McpHttpServerConfig { name: owned("swissknife-mcp"), version: owned("0.1.0"), cors_origins }
    }
}

/// What the server tells about one tool.
#[derive(Debug)]
pub struct ToolInfo {
    pub name: String,
    pub description: String,
    pub parameters: JsonValue,
}

impl ToolInfo {
    /// A copy of this description.
    pub fn duplicate(&self) -> (r: ToolInfo)
        ensures
            r.name@ == self.name@,
            r.description@ == self.description@,
            r.parameters@ == self.parameters@,
    {
        ToolInfo {
            name: self.name.clone(),
            description: self.description.clone(),
            parameters: self.parameters.duplicate(),
        }
    }
}

/// The answer of the `/info` route.
#[derive(Debug)]
pub struct ServerInfo {
    pub name: String,
    pub version: String,
    pub tools: Vec<ToolInfo>,
}

/// The body of a `/call` request.
#[derive(Debug)]
pub struct ToolCallRequest {
    pub name: String,
    pub arguments: JsonValue,
}

/// The body of the answer to a tool call.
#[derive(Debug)]
pub struct ToolCallResponse {
    pub success: bool,
    pub result: Option<JsonValue>,
    pub error: Option<String>,
}

/// An event sent to the subscribers of the event stream.
#[derive(Debug)]
pub struct SseMessage {
    pub event_type: String,
    pub data: JsonValue,
}

/// The HTTP status of a successful call.
pub const STATUS_OK: u16 = 200;

/// The HTTP status of a call to a tool that is not registered.
pub const STATUS_NOT_FOUND: u16 = 404;

/// The HTTP status of a call whose tool failed.
pub const STATUS_INTERNAL_ERROR: u16 = 500;

/// The message of a call to an unknown tool.
pub open spec fn not_found_text(name: Seq<char>) -> Seq<char> {
    "Tool '"@ + name + "' not found"@
}

/// The status and body answering a call of `name`: `outcome` is `None` when no
/// tool of that name is registered, else what the tool's handler gave back.
pub open spec fn call_answer(
    name: Seq<char>,
    outcome: Option<Result<JsonData, Seq<char>>>,
) -> (u16, bool, Option<JsonData>, Option<Seq<char>>) {
    match outcome {
        None => (STATUS_NOT_FOUND, false, None, Some(not_found_text(name))),
        Some(Ok(v)) => (STATUS_OK, true, Some(v), None),
        Some(Err(e)) => (STATUS_INTERNAL_ERROR, false, None, Some(e)),
    }
}

/// The view of an answer body.
pub open spec fn response_view(r: ToolCallResponse) -> (bool, Option<JsonData>, Option<Seq<char>>) {
    (
        r.success,
        match r.result {
            Some(v) => Some(v@),
            None => None,
        },
        match r.error {
            Some(e) => Some(e@),
            None => None,
        },
    )
}

/// The status and body of the answer to a call of the tool `name`; `outcome`
/// is `None` when no such tool is registered, else what its handler returned.
pub fn call_response(name: &str, outcome: Option<Result<JsonValue, String>>) -> (r: (u16, ToolCallResponse))
    ensures
        ({
            let a = call_answer(
                name@,
                match outcome {
                    None => None,
                    Some(Ok(v)) => Some(Ok(v@)),
                    Some(Err(e)) => Some(Err(e@)),
                },
            );
            &&& r.0 == a.0
            &&& response_view(r.1) == (a.1, a.2, a.3)
        }),
{
    match outcome {
        None => {
            let mut msg = owned("Tool '");
            crate::text::push_str(&mut msg, name);
            crate::text::push_str(&mut msg, "' not found");
            (STATUS_NOT_FOUND, ToolCallResponse { success: false, result: None, error: Some(msg) })
        },
        Some(Ok(v)) => (STATUS_OK, ToolCallResponse { success: true, result: Some(v), error: None }),
        Some(Err(e)) => (STATUS_INTERNAL_ERROR, ToolCallResponse { success: false, result: None, error: Some(e) }),
    }
}

/// The answer to a call made through `/call`: status and body as for any
/// call, and, when the tool succeeded, the event announcing its result.
pub fn call_by_body_response(name: &str, outcome: Option<Result<JsonValue, String>>) -> (r: (u16, ToolCallResponse, Option<SseMessage>))
    ensures
        ({
            let a = call_answer(
                name@,
                match outcome {
                    None => None,
                    Some(Ok(v)) => Some(Ok(v@)),
                    Some(Err(e)) => Some(Err(e@)),
                },
            );
            &&& r.0 == a.0
            &&& response_view(r.1) == (a.1, a.2, a.3)
        }),
        match outcome {
            Some(Ok(v)) => r.2 matches Some(m) && m.event_type@ == "tool_result"@ && m.data@ == tool_result_data(name@, v@),
            _ => r.2 is None,
        },
{
    match outcome {
        Some(Ok(v)) => {
            let event = tool_result_event(name, v.duplicate());
            let (status, body) = call_response(name, Some(Ok(v)));
            (status, body, Some(event))
        },
        other => {
            let (status, body) = call_response(name, other);
            (status, body, None)
        },
    }
}

/// The data of the event announcing that `tool` returned `result`.
pub open spec fn tool_result_data(tool: Seq<char>, result: JsonData) -> JsonData {
    JsonData::Object(seq![("tool"@, JsonData::Str(tool)), ("result"@, result)])
}

/// The event sent after a successful call made through `/call`.
pub fn tool_result_event(tool: &str, result: JsonValue) -> (r: SseMessage)
    ensures
        r.event_type@ == "tool_result"@,
        r.data@ == tool_result_data(tool@, result@),
{
    let mut members: Vec<(String, JsonValue)> = Vec::new();
    push_member(&mut members, "tool", string_value(tool));
    push_member(&mut members, "result", result);
    proof {
        assert(members_data(members@) =~= seq![("tool"@, JsonData::Str(tool@)), ("result"@, result@)]);
    }
    SseMessage { event_type: owned("tool_result"), data: JsonValue::Object(members) }
}

/// The body of the health routes, with the time at which it was asked.
pub fn health_body(timestamp: &str) -> (r: JsonValue)
    ensures
        r@ == JsonData::Object(seq![("status"@, JsonData::Str("ok"@)), ("timestamp"@, JsonData::Str(timestamp@))]),
{
    let mut members: Vec<(String, JsonValue)> = Vec::new();
    push_member(&mut members, "status", string_value("ok"));
    push_member(&mut members, "timestamp", string_value(timestamp));
    proof {
        assert(members_data(members@) =~= seq![("status"@, JsonData::Str("ok"@)), ("timestamp"@, JsonData::Str(timestamp@))]);
    }
    JsonValue::Object(members)
}

/// The tools a server offers, under their names, and its settings. Calling a
/// tool and serving the routes are done by the caller, which asks the server
/// what to answer.
#[derive(Debug)]
pub struct McpHttpServer {
    pub config: McpHttpServerConfig,
    pub tools: KeyedTable<ToolInfo>,
}

impl McpHttpServer {
    /// Well-formed: its tool table is.
    pub closed spec fn wf(&self) -> bool {
        self.tools.wf()
    }

    /// The registered tools by name.
    pub closed spec fn tools(&self) -> Map<Seq<char>, ToolInfo> {
        self.tools.map()
    }

    /// The names of the registered tools, in registration order.
    pub closed spec fn tool_names(&self) -> Seq<Seq<char>> {
        self.tools.keys()
    }

    /// The registered names are the keys of the tools, each once.
    pub proof fn lemma_names(&self)
        requires
            self.wf(),
        ensures
            forall|k: Seq<char>| #[trigger] self.tools().contains_key(k) <==> self.tool_names().contains(k),
            self.tool_names().no_duplicates(),
    {
        self.tools.lemma_view();
        let ks = self.tool_names();
        assert forall|i: int, j: int| 0 <= i < ks.len() && 0 <= j < ks.len() && i != j implies ks[i] != ks[j] by {
            assert(ks[i] == self.tools.entries()[i].0@);
            assert(ks[j] == self.tools.entries()[j].0@);
        }
    }

    pub fn new(config: McpHttpServerConfig) -> (r: Self)
        ensures
            r.wf(),
            r.config == config,
            r.tools() == Map::<Seq<char>, ToolInfo>::empty(),
            r.tool_names() == Seq::<Seq<char>>::empty(),
    {
        McpHttpServer { config, tools: KeyedTable::new() }
    }

    /// Registers a tool; one registered under the same name is replaced.
    pub fn register_tool(&mut self, name: &str, description: &str, parameters: JsonValue)
        requires
            old(self).wf(),
        ensures
            final(self).wf(),
            final(self).config == old(self).config,
            final(self).tools().contains_key(name@),
            final(self).tools()[name@].name@ == name@,
            final(self).tools()[name@].description@ == description@,
            final(self).tools()[name@].parameters@ == parameters@,
            forall|k: Seq<char>| k != name@ ==> #[trigger] final(self).tools().contains_key(k) == old(self).tools().contains_key(k)
                && (old(self).tools().contains_key(k) ==> final(self).tools()[k] == old(self).tools()[k]),
            old(self).tools().contains_key(name@) ==> final(self).tool_names() == old(self).tool_names(),
            !old(self).tools().contains_key(name@) ==> final(self).tool_names() == old(self).tool_names().push(name@),
    {
        let info = ToolInfo { name: owned(name), description: owned(description), parameters };
        self.tools.set(owned(name), info);
    }

    /// The description of the tool `name`, if it is registered.
    pub fn tool(&self, name: &str) -> (r: Option<&ToolInfo>)
        requires
            self.wf(),
        ensures
            match r {
                Some(t) => self.tools().contains_key(name@) && self.tools()[name@] == *t,
                None => !self.tools().contains_key(name@),
            },
    {
        self.tools.get(name)
    }

    /// Whether a call of `name` reaches a tool.
    pub fn has_tool(&self, name: &str) -> (r: bool)
        requires
            self.wf(),
        ensures
            r == self.tools().contains_key(name@),
    {
        self.tools.contains(name)
    }

    /// The descriptions of all tools, in registration order.
    pub fn tool_list(&self) -> (r: Vec<ToolInfo>)
        requires
            self.wf(),
        ensures
            r@.len() == self.tool_names().len(),
            forall|i: int| 0 <= i < r@.len() ==> {
                let t = #[trigger] self.tools()[self.tool_names()[i]];
                &&& r@[i].name@ == t.name@
                &&& r@[i].description@ == t.description@
                &&& r@[i].parameters@ == t.parameters@
            },
    {
        proof {
            self.tools.lemma_view();
        }
        let entries = self.tools.entry_list();
        let mut out: Vec<ToolInfo> = Vec::new();
        let mut i: usize = 0;
        while i < entries.len()
            invariant
                i <= entries@.len(),
                entries@ == self.tools.entries(),
                self.tool_names().len() == entries@.len(),
                forall|j: int| 0 <= j < entries@.len() ==> #[trigger] self.tool_names()[j] == entries@[j].0@,
                forall|j: int| 0 <= j < entries@.len() ==> #[trigger] self.tools()[entries@[j].0@] == entries@[j].1,
                out@.len() == i,
                forall|j: int| 0 <= j < i ==> {
                    let t = #[trigger] self.tools()[self.tool_names()[j]];
                    &&& out@[j].name@ == t.name@
                    &&& out@[j].description@ == t.description@
                    &&& out@[j].parameters@ == t.parameters@
                },
            decreases entries@.len() - i,
        {
            let t = entries[i].1.duplicate();
            proof {
                assert(self.tools()[self.tool_names()[i as int]] == entries@[i as int].1);
            }
            out.push(t);
            i = i + 1;
        }
        out
    }

    /// The answer of the `/info` route.
    pub fn info(&self) -> (r: ServerInfo)
        requires
            self.wf(),
        ensures
            r.name@ == self.config.name@,
            r.version@ == self.config.version@,
            r.tools@.len() == self.tool_names().len(),
            forall|i: int| 0 <= i < r.tools@.len() ==> {
                let t = #[trigger] self.tools()[self.tool_names()[i]];
                &&& r.tools@[i].name@ == t.name@
                &&& r.tools@[i].description@ == t.description@
                &&& r.tools@[i].parameters@ == t.parameters@
            },
    {
        ServerInfo { name: self.config.name.clone(), version: self.config.version.clone(), tools: self.tool_list() }
    }

    /// The event that `broadcast` sends.
    pub fn broadcast(&self, event_type: &str, data: JsonValue) -> (r: SseMessage)
        ensures
            r.event_type@ == event_type@,
            r.data@ == data@,
    {
        SseMessage { event_type: owned(event_type), data }
    }
}

/// A call is answered 404, with the text naming the tool, exactly when no
/// tool of that name is registered; a registered tool's answer is 200 with
/// its result when it succeeds and 500 with its message when it fails.
pub proof fn law_call_answers(name: Seq<char>, outcome: Option<Result<JsonData, Seq<char>>>)
    ensures
        (call_answer(name, outcome).0 == STATUS_NOT_FOUND) == (outcome is None),
        outcome is None ==> call_answer(name, outcome).3 == Some(not_found_text(name)),
        outcome matches Some(Ok(v)) ==> call_answer(name, outcome) == (STATUS_OK, true, Some(v), None::<Seq<char>>),
        outcome matches Some(Err(e)) ==> call_answer(name, outcome) == (STATUS_INTERNAL_ERROR, false, None::<JsonData>, Some(e)),
{
}

} // verus!
