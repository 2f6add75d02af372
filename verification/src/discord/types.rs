//! The kinds of message that can be sent, and what they carry.

use crate::text::optional;
use vstd::prelude::*;

verus! {

/// A file to upload with a message.
#[derive(Debug)]
pub struct FileAttachment {
    /// Where the file is.
    pub path: String,
    /// The name it is uploaded under.
    pub filename: String,
    /// Its media type.
    pub mime_type: String,
    /// Its size in bytes.
    pub size: u64,
    /// Alt text, if any.
    pub description: Option<String>,
}

/// Mathematical image of an upload.
pub struct UploadView {
    pub path: Seq<char>,
    pub filename: Seq<char>,
    pub mime_type: Seq<char>,
    pub size: u64,
    pub description: Option<Seq<char>>,
}

impl View for FileAttachment {
    type V = UploadView;

    open spec fn view(&self) -> UploadView {
        UploadView {
            path: self.path@,
            filename: self.filename@,
            mime_type: self.mime_type@,
            size: self.size,
            description: optional(self.description),
        }
    }
}

impl Clone for FileAttachment {
    fn clone(&self) -> (out: Self)
        ensures
            out@ == self@,
    {
        FileAttachment {
            path: self.path.clone(),
            filename: self.filename.clone(),
            mime_type: self.mime_type.clone(),
            size: self.size,
            description: match &self.description {
                Some(text) => Some(text.clone()),
                None => None,
            },
        }
    }
}

/// An image inside an embed.
#[derive(Debug, Clone)]
pub struct EmbedImage {
    pub url: String,
}

/// A rich embed.
#[derive(Debug, Clone)]
pub struct Embed {
    pub title: Option<String>,
    pub description: Option<String>,
    pub color: Option<u32>,
    pub image: Option<EmbedImage>,
}

/// A message to send.
#[derive(Debug, Clone)]
#[allow(inconsistent_fields)]
pub enum DiscordMessage {
    /// Text only.
    Simple { content: String },
    /// Files, with or without text.
    WithAttachments { content: Option<String>, attachments: Vec<FileAttachment> },
    /// Embeds, with or without text.
    WithEmbeds { content: Option<String>, embeds: Vec<Embed> },
}

/// Mathematical image of an [`Embed`].
pub struct EmbedView {
    pub title: Option<Seq<char>>,
    pub description: Option<Seq<char>>,
    pub color: Option<u32>,
    pub image: Option<Seq<char>>,
}

impl View for Embed {
    type V = EmbedView;

    open spec fn view(&self) -> EmbedView {
        EmbedView {
            title: optional(self.title),
            description: optional(self.description),
            color: self.color,
            image: match self.image {
                Some(image) => Some(image.url@),
                None => None,
            },
        }
    }
}

/// The views of a list of uploads.
pub open spec fn upload_views(files: Seq<FileAttachment>) -> Seq<UploadView> {
    Seq::new(files.len(), |i: int| files[i]@)
}

/// The views of a list of embeds.
pub open spec fn embed_views(embeds: Seq<Embed>) -> Seq<EmbedView> {
    Seq::new(embeds.len(), |i: int| embeds[i]@)
}

/// Mathematical image of a [`DiscordMessage`].
pub enum MessageView {
    Simple(Seq<char>),
    WithAttachments { content: Option<Seq<char>>, attachments: Seq<UploadView> },
    WithEmbeds { content: Option<Seq<char>>, embeds: Seq<EmbedView> },
}

impl View for DiscordMessage {
    type V = MessageView;

    open spec fn view(&self) -> MessageView {
        match self {
            DiscordMessage::Simple { content } => MessageView::Simple(content@),
            DiscordMessage::WithAttachments { content, attachments } => MessageView::WithAttachments {
                content: optional(*content),
                attachments: upload_views(attachments@),
            },
            DiscordMessage::WithEmbeds { content, embeds } => MessageView::WithEmbeds {
                content: optional(*content),
                embeds: embed_views(embeds@),
            },
        }
    }
}

/// What the platform is told of an upload in the message's JSON.
#[derive(Debug, Clone)]
pub struct Attachment {
    /// Number of the upload within the message.
    pub id: u64,
    /// Alt text, if any.
    pub description: Option<String>,
    /// File name, if any.
    pub filename: Option<String>,
}

impl From<FileAttachment> for Attachment {
    fn from(file: FileAttachment) -> (out: Attachment) {
        Attachment { id: 0, description: file.description, filename: Some(file.filename) }
    }
}

impl vstd::std_specs::convert::FromSpecImpl<FileAttachment> for Attachment {
    open spec fn obeys_from_spec() -> bool {
        true
    }

    open spec fn from_spec(file: FileAttachment) -> Attachment {
        Attachment { id: 0, description: file.description, filename: Some(file.filename) }
    }
}

} // verus!
