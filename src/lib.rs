use vstd::prelude::*;

pub mod text;
pub mod error;
pub mod config;
pub mod protocol;
pub mod registry;
pub mod prompts;
pub mod server;
pub mod session;
pub mod buffer;
pub mod binary;
pub mod query;
pub mod backend;
pub mod security;

verus! {

} // verus!
