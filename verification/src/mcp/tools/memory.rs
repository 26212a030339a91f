use vstd::prelude::*;

use crate::json::JsonValue;

verus! {

/// One entry of a tool's arguments.
#[derive(Debug)]
pub struct Mem0Message {
    pub role: String,
    pub content: String,
}

/// The arguments of the `mem0_get_memories` tool (get memories from Mem0).
#[derive(Debug)]
pub struct Mem0GetMemoriesRequest {
    pub user_id: Option<String>,
    pub agent_id: Option<String>,
    pub run_id: Option<String>,
}

/// The arguments of the `mem0_search_memories` tool (search memories in Mem0).
#[derive(Debug)]
pub struct Mem0SearchMemoriesRequest {
    pub query: String,
    pub user_id: Option<String>,
    pub agent_id: Option<String>,
    pub limit: Option<u32>,
}

/// The arguments of the `mem0_delete_memory` tool (delete a memory from Mem0).
#[derive(Debug)]
pub struct Mem0DeleteMemoryRequest {
    pub memory_id: String,
}

/// One entry of a tool's arguments.
#[derive(Debug)]
pub struct ZepMessage {
    pub role: String,
    pub content: String,
}

/// The arguments of the `zep_add_memory` tool (add messages to Zep session memory).
#[derive(Debug)]
pub struct ZepAddMemoryRequest {
    pub session_id: String,
    pub messages: Vec<ZepMessage>,
}

/// The arguments of the `zep_get_memory` tool (get memory from a Zep session).
#[derive(Debug)]
pub struct ZepGetMemoryRequest {
    pub session_id: String,
    pub lastn: Option<u32>,
}

/// The arguments of the `zep_search_memory` tool (search Zep session memory).
#[derive(Debug)]
pub struct ZepSearchMemoryRequest {
    pub session_id: String,
    pub text: String,
    pub limit: Option<u32>,
}

/// The arguments of the `zep_get_user` tool (get a user from Zep).
#[derive(Debug)]
pub struct ZepGetUserRequest {
    pub user_id: String,
}

/// The arguments of the `mem0_add_memory` tool (add a memory to Mem0).
#[derive(Debug)]
pub struct Mem0AddMemoryRequest {
    pub messages: Vec<Mem0Message>,
    pub user_id: Option<String>,
    pub agent_id: Option<String>,
    pub run_id: Option<String>,
    pub metadata: Option<JsonValue>,
}

/// The arguments of the `zep_create_user` tool (create a user in Zep).
#[derive(Debug)]
pub struct ZepCreateUserRequest {
    pub user_id: String,
    pub email: Option<String>,
    pub first_name: Option<String>,
    pub last_name: Option<String>,
    pub metadata: Option<JsonValue>,
}

/// The arguments of the `zep_create_session` tool (create a session in Zep).
#[derive(Debug)]
pub struct ZepCreateSessionRequest {
    pub session_id: String,
    pub user_id: Option<String>,
    pub metadata: Option<JsonValue>,
}

} // verus!
