//! Hooks: declarative rules that map an inbound message to a prompt, a
//! processor and a response action.

pub mod config;
pub mod executor;
pub mod rate_limit;
pub mod trigger;
