//! Notification bridge core: hook matching, admission control, prompt
//! rendering and the decisions around processor invocation and dispatch.

pub mod cli;
pub mod commands;
pub mod config;
pub mod discord;
pub mod error;
pub mod hooks;
pub mod json;
pub mod message;
pub mod paths;
pub mod processing;
pub mod prompt;
pub mod text;
