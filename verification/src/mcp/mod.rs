use vstd::prelude::*;

pub mod cli;
pub mod handler;
pub mod host;
pub mod http;
pub mod providers;
pub mod router;
pub mod runner;
pub mod tools;
pub mod types;

verus! {

} // verus!
