//! The error type shared by every fallible operation of the crate.

use vstd::prelude::*;
use vstd::string::StringExecFns;

verus! {

/// Why an operation failed. Every variant carries a human-readable detail.
#[derive(Debug)]
pub enum DiscliError {
    /// Missing or malformed configuration.
    Config(String),
    /// The chat platform's HTTP API answered with an error.
    DiscordApi(String),
    /// The HTTP transport failed.
    Network(String),
    /// A file or a pipe could not be read or written.
    Io(String),
    /// An attachment was refused.
    Attachment(String),
    /// An input was outside the platform's limits.
    Validation(String),
    /// A MIME type was not acceptable.
    Mime(String),
    /// The real-time gateway failed.
    Gateway(String),
    /// The gateway's socket failed.
    WebSocket(String),
    /// A processor did not finish within its bound.
    Timeout(String),
    /// A processor's command exited with a failure.
    Process(String),
    /// A remote endpoint answered with a status outside 2xx.
    Remote(String),
}

/// Mathematical image of a [`DiscliError`]: the variant and its detail text.
pub enum ErrorView {
    Config(Seq<char>),
    DiscordApi(Seq<char>),
    Network(Seq<char>),
    Io(Seq<char>),
    Attachment(Seq<char>),
    Validation(Seq<char>),
    Mime(Seq<char>),
    Gateway(Seq<char>),
    WebSocket(Seq<char>),
    Timeout(Seq<char>),
    Process(Seq<char>),
    Remote(Seq<char>),
}

impl ErrorView {
    /// The detail text carried by the variant.
    pub open spec fn detail(self) -> Seq<char> {
        match self {
            ErrorView::Config(d) => d,
            ErrorView::DiscordApi(d) => d,
            ErrorView::Network(d) => d,
            ErrorView::Io(d) => d,
            ErrorView::Attachment(d) => d,
            ErrorView::Validation(d) => d,
            ErrorView::Mime(d) => d,
            ErrorView::Gateway(d) => d,
            ErrorView::WebSocket(d) => d,
            ErrorView::Timeout(d) => d,
            ErrorView::Process(d) => d,
            ErrorView::Remote(d) => d,
        }
    }

    /// The text that introduces the detail when the error is shown.
    pub open spec fn prefix(self) -> Seq<char> {
        match self {
            ErrorView::Config(_) => "Configuration error: "@,
            ErrorView::DiscordApi(_) => "Discord API error: "@,
            ErrorView::Network(_) => "Network error: "@,
            ErrorView::Io(_) => "IO error: "@,
            ErrorView::Attachment(_) => "Attachment error: "@,
            ErrorView::Validation(_) => "Validation error: "@,
            ErrorView::Mime(_) => "MIME type error: "@,
            ErrorView::Gateway(_) => "Gateway error: "@,
            ErrorView::WebSocket(_) => "WebSocket error: "@,
            ErrorView::Timeout(_) => "Timeout error: "@,
            ErrorView::Process(_) => "Process error: "@,
            ErrorView::Remote(_) => "Remote error: "@,
        }
    }

    /// The full line shown for the error: prefix, then detail.
    pub open spec fn message(self) -> Seq<char> {
        self.prefix() + self.detail()
    }
}

impl View for DiscliError {
    type V = ErrorView;

    open spec fn view(&self) -> ErrorView {
        match self {
            DiscliError::Config(d) => ErrorView::Config(d@),
            DiscliError::DiscordApi(d) => ErrorView::DiscordApi(d@),
            DiscliError::Network(d) => ErrorView::Network(d@),
            DiscliError::Io(d) => ErrorView::Io(d@),
            DiscliError::Attachment(d) => ErrorView::Attachment(d@),
            DiscliError::Validation(d) => ErrorView::Validation(d@),
            DiscliError::Mime(d) => ErrorView::Mime(d@),
            DiscliError::Gateway(d) => ErrorView::Gateway(d@),
            DiscliError::WebSocket(d) => ErrorView::WebSocket(d@),
            DiscliError::Timeout(d) => ErrorView::Timeout(d@),
            DiscliError::Process(d) => ErrorView::Process(d@),
            DiscliError::Remote(d) => ErrorView::Remote(d@),
        }
    }
}

impl DiscliError {
    /// The line shown to a user for this error.
    pub fn message(&self) -> (out: String)
        ensures
            out@ == self@.message(),
    {
        match self {
            DiscliError::Config(d) => String::from_str("Configuration error: ").concat(d.as_str()),
            DiscliError::DiscordApi(d) => String::from_str("Discord API error: ").concat(d.as_str()),
            DiscliError::Network(d) => String::from_str("Network error: ").concat(d.as_str()),
            DiscliError::Io(d) => String::from_str("IO error: ").concat(d.as_str()),
            DiscliError::Attachment(d) => String::from_str("Attachment error: ").concat(d.as_str()),
            DiscliError::Validation(d) => String::from_str("Validation error: ").concat(d.as_str()),
            DiscliError::Mime(d) => String::from_str("MIME type error: ").concat(d.as_str()),
            DiscliError::Gateway(d) => String::from_str("Gateway error: ").concat(d.as_str()),
            DiscliError::WebSocket(d) => String::from_str("WebSocket error: ").concat(d.as_str()),
            DiscliError::Timeout(d) => String::from_str("Timeout error: ").concat(d.as_str()),
            DiscliError::Process(d) => String::from_str("Process error: ").concat(d.as_str()),
            DiscliError::Remote(d) => String::from_str("Remote error: ").concat(d.as_str()),
        }
    }
}

/// `std::io::Error`. Nothing is known of its inside.
#[verifier::external_type_specification]
#[verifier::external_body]
pub struct ExIoError(std::io::Error);

/// `format!("{}", e)` for a `std::io::Error`: the text that its `Display`
/// impl writes. That text comes from the operating system, so nothing is
/// claimed of it.
#[verifier::external_body]
fn io_error_text(e: &std::io::Error) -> String {
    format!("{}", e)
}

impl From<std::io::Error> for DiscliError {
    fn from(e: std::io::Error) -> (out: DiscliError)
        ensures
            out is Io,
    {
        DiscliError::Io(io_error_text(&e))
    }
}

impl vstd::std_specs::convert::FromSpecImpl<std::io::Error> for DiscliError {
    open spec fn obeys_from_spec() -> bool {
        false
    }

    open spec fn from_spec(e: std::io::Error) -> DiscliError {
        arbitrary()
    }
}

} // verus!
