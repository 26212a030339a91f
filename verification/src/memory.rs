use vstd::prelude::*;

use crate::error::Error;
use crate::text::{concat, decimal, decimal_string, owned, push_char, push_decimal, push_str, str_equal};

verus! {

/// The kinds of action that a session records.
#[derive(Debug, Clone, Copy, PartialEq, Eq, Structural)]
pub enum ActionType {
    Message,
    ToolCall,
    ToolResult,
    Thinking,
}

/// The name under which an action kind is stored.
pub open spec fn action_type_name(t: ActionType) -> Seq<char> {
    match t {
        ActionType::Message => "message"@,
        ActionType::ToolCall => "tool_call"@,
        ActionType::ToolResult => "tool_result"@,
        ActionType::Thinking => "thinking"@,
    }
}

/// The action kind stored under a name.
pub open spec fn action_type_named(s: Seq<char>) -> Option<ActionType> {
    if s == "message"@ {
        Some(ActionType::Message)
    } else if s == "tool_call"@ {
        Some(ActionType::ToolCall)
    } else if s == "tool_result"@ {
        Some(ActionType::ToolResult)
    } else if s == "thinking"@ {
        Some(ActionType::Thinking)
    } else {
        None
    }
}

impl ActionType {
    pub fn as_str(&self) -> (r: &'static str)
        ensures
            r@ == action_type_name(*self),
    {
        match self {
            ActionType::Message => "message",
            ActionType::ToolCall => "tool_call",
            ActionType::ToolResult => "tool_result",
            ActionType::Thinking => "thinking",
        }
    }

    pub fn from_str(s: &str) -> (r: Option<Self>)
        ensures
            r == action_type_named(s@),
    {
        if str_equal(s, "message") {
            Some(ActionType::Message)
        } else if str_equal(s, "tool_call") {
            Some(ActionType::ToolCall)
        } else if str_equal(s, "tool_result") {
            Some(ActionType::ToolResult)
        } else if str_equal(s, "thinking") {
            Some(ActionType::Thinking)
        } else {
            None
        }
    }

    /// The kind stored in a row: its name read back, a message when the name is unknown.
    pub fn from_column(s: &str) -> (r: Self)
        ensures
            r == match action_type_named(s@) {
                Some(t) => t,
                None => ActionType::Message,
            },
    {
        match ActionType::from_str(s) {
            Some(t) => t,
            None => ActionType::Message,
        }
    }
}

/// The four names are distinct.
pub proof fn lemma_action_type_names_distinct()
    ensures
        "message"@ != "tool_call"@,
        "message"@ != "tool_result"@,
        "message"@ != "thinking"@,
        "tool_call"@ != "tool_result"@,
        "tool_call"@ != "thinking"@,
        "tool_result"@ != "thinking"@,
{
    reveal_strlit("message");
    reveal_strlit("tool_call");
    reveal_strlit("tool_result");
    reveal_strlit("thinking");
    assert("message"@.len() != "tool_call"@.len());
    assert("message"@[0] != "tool_result"@[0]);
    assert("message"@[0] != "thinking"@[0]);
    assert("tool_call"@.len() != "tool_result"@.len());
    assert("tool_call"@[1] != "thinking"@[1]);
    assert("tool_result"@[1] != "thinking"@[1]);
}

/// Reading back the name of an action kind gives that kind, and a name that
/// reads as a kind is that kind's name.
pub proof fn lemma_action_type_round_trip(t: ActionType, s: Seq<char>)
    ensures
        action_type_named(action_type_name(t)) == Some(t),
        action_type_named(s) == Some(t) ==> s == action_type_name(t),
{
    lemma_action_type_names_distinct();
}

/// Settings of a memory store.
#[derive(Debug)]
pub struct MemoryConfig {
    pub db_path: Option<String>,
    pub embedding_dim: usize,
}

impl Default for MemoryConfig {
    fn default() -> (r: Self)
        ensures
            r.db_path is None,
            r.embedding_dim == 0,
    {
        MemoryConfig { db_path: None, embedding_dim: 0 }
    }
}

impl MemoryConfig {
    /// No database path, embeddings of 1024 dimensions.
    pub fn new() -> (r: Self)
        ensures
            r.db_path is None,
            r.embedding_dim == 1024,
    {
        MemoryConfig { db_path: None, embedding_dim: 1024 }
    }

    pub fn with_db_path(self, path: String) -> (r: Self)
        ensures
            r.db_path == Some(path),
            r.embedding_dim == self.embedding_dim,
    {
        MemoryConfig { db_path: Some(path), embedding_dim: self.embedding_dim }
    }

    pub fn with_embedding_dim(self, dim: usize) -> (r: Self)
        ensures
            r.db_path == self.db_path,
            r.embedding_dim == dim,
    {
        MemoryConfig { db_path: self.db_path, embedding_dim: dim }
    }
}

/// The content recorded for a tool call: `name(input)`.
pub fn tool_call_content(tool_name: &str, tool_input: &str) -> (r: String)
    ensures
        r@ == tool_name@ + "("@ + tool_input@ + ")"@,
{
    let mut r = owned(tool_name);
    push_str(&mut r, "(");
    push_str(&mut r, tool_input);
    push_str(&mut r, ")");
    r
}

/// The text of the error for an embedding of the wrong size.
pub open spec fn dimension_mismatch_text(expected: nat, got: nat) -> Seq<char> {
    "Embedding dimension mismatch: expected "@ + decimal(expected) + ", got "@ + decimal(got)
}

/// An embedding must have exactly the configured number of dimensions.
pub fn check_embedding_dim(expected: usize, got: usize) -> (r: Result<(), Error>)
    ensures
        expected == got <==> r is Ok,
        r matches Err(e) ==> e matches Error::InvalidParameter(m) && m@ == dimension_mismatch_text(expected as nat, got as nat),
{
    if expected == got {
        return Ok(());
    }
    let mut m = owned("Embedding dimension mismatch: expected ");
    push_decimal(&mut m, expected as u64);
    push_str(&mut m, ", got ");
    push_decimal(&mut m, got as u64);
    Err(Error::InvalidParameter(m))
}

/// The next sequence number of a session: what the database reports, or 1 when
/// it reports nothing.
pub fn next_sequence(reported: Option<i64>) -> (r: i64)
    ensures
        r == match reported {
            Some(v) => v,
            None => 1,
        },
{
    match reported {
        Some(v) => v,
        None => 1,
    }
}

} // verus!
