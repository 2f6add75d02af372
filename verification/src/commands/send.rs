//! The send command: what is sent, and where.

use crate::config::env::Config;
use crate::discord::types::{upload_views, DiscordMessage, MessageView, UploadView};
use crate::error::{DiscliError, ErrorView};
use crate::message::builder::{built, uploads_with, MessageBuilder, ProbedFile};
use crate::message::validation::{
    content_too_long, too_many_attachments, validate_attachment_count, validate_content_length,
    MAX_ATTACHMENTS, MAX_LENGTH,
};
use crate::text::{decimal, decimal_string};
use vstd::prelude::*;
use vstd::string::StringExecFns;

verus! {

/// A message ready to be sent.
#[derive(Debug)]
pub struct Outbound {
    /// The channel it goes to.
    pub channel_id: String,
    /// The message.
    pub message: DiscordMessage,
    /// What to say once it was sent.
    pub summary: String,
}

/// Mathematical image of an [`Outbound`].
pub struct OutboundView {
    pub channel_id: Seq<char>,
    pub message: MessageView,
    pub summary: Seq<char>,
}

impl View for Outbound {
    type V = OutboundView;

    open spec fn view(&self) -> OutboundView {
        OutboundView {
            channel_id: self.channel_id@,
            message: self.message@,
            summary: self.summary@,
        }
    }
}

/// What is said once a message with `files` attachments was sent to
/// `channel_id`.
pub open spec fn sent_summary(files: nat, channel_id: Seq<char>) -> Seq<char> {
    "Successfully sent "@ + (if files == 0 {
        "text message"@
    } else {
        "message with "@ + decimal(files) + " image attachment(s)"@
    }) + " to channel "@ + channel_id
}

/// The message that the send command sends, or why it sends none: too many
/// attachments, files and URLs counted together; text that is too long;
/// or a file that cannot be attached.
pub open spec fn outbound_for(
    channel_id: Seq<char>,
    content: Seq<char>,
    attach: Seq<ProbedFile>,
    embed_urls: nat,
) -> Result<OutboundView, ErrorView> {
    if attach.len() + embed_urls > MAX_ATTACHMENTS {
        Err(too_many_attachments(attach.len() + embed_urls))
    } else if content.len() > 0 && vstd::utf8::encode_utf8(content).len() > MAX_LENGTH {
        Err(content_too_long(vstd::utf8::encode_utf8(content).len()))
    } else {
        match uploads_with(Seq::empty(), attach, attach.len()) {
            Err(e) => Err(e),
            Ok(uploads) => Ok(
                OutboundView {
                    channel_id,
                    message: built(
                        if content.len() > 0 {
                            Some(content)
                        } else {
                            None
                        },
                        uploads,
                    ),
                    summary: sent_summary(attach.len(), channel_id),
                },
            ),
        }
    }
}

/// Prepares the message of the send command. The caption is not used.
pub fn execute(
    config: &Config,
    content: String,
    attach: Vec<ProbedFile>,
    embed_url: Vec<String>,
    caption: Option<String>,
) -> (out: Result<Outbound, DiscliError>)
    requires
        attach@.len() + embed_url@.len() <= usize::MAX,
    ensures
        match out {
            Ok(outbound) => outbound_for(
                config@.channel_id,
                content@,
                attach@,
                embed_url@.len(),
            ) == Ok::<OutboundView, ErrorView>(outbound@),
            Err(e) => outbound_for(config@.channel_id, content@, attach@, embed_url@.len())
                == Err::<OutboundView, ErrorView>(e@),
        },
{
    match validate_attachment_count(attach.len() + embed_url.len()) {
        Err(e) => {
            return Err(e);
        },
        Ok(_) => {},
    }
    let has_text = !content.as_str().is_empty();
    if has_text {
        match validate_content_length(content.as_str()) {
            Err(e) => {
                return Err(e);
            },
            Ok(_) => {},
        }
    }
    let mut builder = MessageBuilder::new();
    if has_text {
        builder = builder.content(content.as_str());
    }
    let files = attach.len();
    proof {
        assert(upload_views(builder.attachments@) =~= Seq::<UploadView>::empty());
    }
    let builder = match builder.add_attachments(attach) {
        Ok(builder) => builder,
        Err(e) => {
            return Err(e);
        },
    };
    let message = builder.build();
    let what = if files == 0 {
        String::from_str("text message")
    } else {
        String::from_str("message with ").concat(decimal_string(files as u64).as_str()).concat(
            " image attachment(s)",
        )
    };
    let summary = String::from_str("Successfully sent ").concat(what.as_str()).concat(
        " to channel ",
    ).concat(config.channel_id.as_str());
    Ok(Outbound { channel_id: config.channel_id.clone(), message, summary })
}

} // verus!
