//! The chat platform: message types, requests to its HTTP API, and the
//! decisions of the gateway loop.

pub mod api;
pub mod client;
pub mod gateway;
pub mod types;

pub use client::DiscordClient;
