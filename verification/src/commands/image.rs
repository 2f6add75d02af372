//! The image command: the send command with the caption as its text.

use crate::commands::send::{outbound_for, Outbound, OutboundView};
use crate::config::env::Config;
use crate::error::{DiscliError, ErrorView};
use crate::message::builder::ProbedFile;
use crate::text::optional;
use vstd::prelude::*;

verus! {

/// Prepares the message of the image command: what the send command makes
/// of the caption, empty where none was given, and the files.
pub fn execute(
    config: &Config,
    attach: Vec<ProbedFile>,
    caption: Option<String>,
    embed_url: Vec<String>,
) -> (out: Result<Outbound, DiscliError>)
    requires
        attach@.len() + embed_url@.len() <= usize::MAX,
    ensures
        match out {
            Ok(outbound) => outbound_for(
                config@.channel_id,
                match optional(caption) {
                    Some(text) => text,
                    None => Seq::empty(),
                },
                attach@,
                embed_url@.len(),
            ) == Ok::<OutboundView, ErrorView>(outbound@),
            Err(e) => outbound_for(
                config@.channel_id,
                match optional(caption) {
                    Some(text) => text,
                    None => Seq::empty(),
                },
                attach@,
                embed_url@.len(),
            ) == Err::<OutboundView, ErrorView>(e@),
        },
{
    let content = match caption {
        Some(text) => text,
        None => String::new(),
    };
    crate::commands::send::execute(config, content, attach, embed_url, None)
}

} // verus!
