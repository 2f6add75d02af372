//! The client of the platform's HTTP API: which request sends a message.

use crate::discord::api::{
    bot_authorization, content_body, file_parts, json_request, multipart_payload,
    multipart_request, ApiRequest, ApiRequestView,
};
use crate::discord::types::{DiscordMessage, MessageView};
use crate::error::{DiscliError, ErrorView};
use vstd::prelude::*;
use vstd::string::StringExecFns;

verus! {

/// A client for one bot token.
#[derive(Debug)]
pub struct DiscordClient {
    /// The bot token.
    pub token: String,
    /// Where the API lives.
    pub base_url: String,
}

/// The address that messages for a channel are posted to.
pub open spec fn messages_url(base_url: Seq<char>, channel_id: Seq<char>) -> Seq<char> {
    base_url + "/channels/"@ + channel_id + "/messages"@
}

/// The request that sends a message, or the error for a kind of message
/// that cannot be sent yet.
pub open spec fn request_for(
    base_url: Seq<char>,
    token: Seq<char>,
    channel_id: Seq<char>,
    message: MessageView,
) -> Result<ApiRequestView, ErrorView> {
    match message {
        MessageView::Simple(content) => Ok(
            ApiRequestView::Json {
                url: messages_url(base_url, channel_id),
                authorization: bot_authorization(token),
                body: content_body(content),
            },
        ),
        MessageView::WithAttachments { content, attachments } => Ok(
            ApiRequestView::Multipart {
                url: messages_url(base_url, channel_id),
                authorization: bot_authorization(token),
                payload_json: multipart_payload(content, attachments),
                files: file_parts(attachments),
            },
        ),
        MessageView::WithEmbeds { .. } => Err(
            ErrorView::DiscordApi("Embed support not yet implemented"@),
        ),
    }
}

impl DiscordClient {
    /// A client for `token`.
    pub fn new(token: String) -> (out: Self)
        ensures
            out.token == token,
            out.base_url@ == "https://discord.com/api/v10"@,
    {
        DiscordClient { token, base_url: String::from_str("https://discord.com/api/v10") }
    }

    /// The request that sends `message` to a channel.
    pub fn request(&self, channel_id: &str, message: &DiscordMessage) -> (out: Result<
        ApiRequest,
        DiscliError,
    >)
        ensures
            match out {
                Ok(request) => request_for(self.base_url@, self.token@, channel_id@, message@)
                    == Ok::<ApiRequestView, ErrorView>(request@),
                Err(e) => request_for(self.base_url@, self.token@, channel_id@, message@) == Err::<
                    ApiRequestView,
                    ErrorView,
                >(e@),
            },
    {
        let url = self.base_url.clone().concat("/channels/").concat(channel_id).concat("/messages");
        match message {
            DiscordMessage::Simple { content } => Ok(
                json_request(url.as_str(), self.token.as_str(), content.as_str()),
            ),
            DiscordMessage::WithAttachments { content, attachments } => Ok(
                multipart_request(url.as_str(), self.token.as_str(), content, attachments),
            ),
            DiscordMessage::WithEmbeds { .. } => Err(
                DiscliError::DiscordApi(String::from_str("Embed support not yet implemented")),
            ),
        }
    }
}

} // verus!
