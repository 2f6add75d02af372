//! Prompt templates: placeholders, the variables that fill them, and the
//! cache of templates read so far.

pub mod loader;
pub mod registry;
pub mod variables;
