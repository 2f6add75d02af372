//! Process configuration.

pub mod env;

pub use env::Config;
