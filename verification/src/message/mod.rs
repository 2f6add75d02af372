//! Outbound messages: attachments, the builder and the platform's limits.

pub mod attachment;
pub mod builder;
pub mod validation;

pub use attachment::FileAttachment;
pub use builder::MessageBuilder;
