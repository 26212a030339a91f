use vstd::prelude::*;

pub mod auth;
pub mod automation;
pub mod banking;
pub mod cloud;
pub mod communication;
pub mod crm;
pub mod database;
pub mod devtools;
pub mod ecommerce;
pub mod file;
pub mod hr;
pub mod llm;
pub mod markets;
pub mod memory;
pub mod observability;
pub mod payments;
pub mod pm;
pub mod productivity;
pub mod queue;
pub mod research;
pub mod scraping;
pub mod search;
pub mod social;
pub mod vectordb;

verus! {

} // verus!
