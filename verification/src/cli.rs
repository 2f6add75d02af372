//! The command line, as parsed.

use vstd::prelude::*;

verus! {

/// The subcommands.
#[derive(Debug)]
pub enum Commands {
    /// Send a message.
    Send {
        /// Text of the message.
        content: String,
        /// Files to attach.
        attach: Vec<String>,
        /// Images to embed by URL.
        embed_url: Vec<String>,
        /// Alt text for the attachments.
        caption: Option<String>,
    },
    /// Send images.
    Image {
        /// Files to attach.
        attach: Vec<String>,
        /// Text to send with them.
        caption: Option<String>,
        /// Images to embed by URL.
        embed_url: Vec<String>,
    },
    /// Run the hook listener.
    Listen {
        /// Stay in the foreground.
        foreground: bool,
        /// The hooks file.
        hooks_file: Option<String>,
        /// The prompts directory.
        prompts_dir: Option<String>,
        /// Say more.
        verbose: bool,
    },
}

/// The parsed command line.
#[derive(Debug)]
pub struct Cli {
    /// The subcommand, if one was given.
    pub command: Option<Commands>,
    /// Words given without a subcommand: the message, in the old style.
    pub legacy_message: Vec<String>,
}

} // verus!
