use vstd::prelude::*;

pub mod claude_history;
pub mod error;
pub mod http;
pub mod llm;
pub mod mcp;

pub mod memory;
pub mod registry;
pub mod table;
pub mod json;
pub mod text;
pub mod tool;

verus! {

} // verus!
