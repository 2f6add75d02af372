//! Processor backends: what to run for a prompt, and what the run's result
//! means. Running is the caller's business.

pub mod command;
pub mod http;
