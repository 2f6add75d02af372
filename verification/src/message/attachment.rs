//! Files attached to an outbound message.

use crate::discord::types::FileAttachment as DiscordFileAttachment;
use crate::error::{DiscliError, ErrorView};
use crate::paths::{file_name, path_file_name};
use crate::text::optional;
use crate::text::starts_with;
use vstd::prelude::*;
use vstd::string::StringExecFns;

verus! {

/// The media type that `mime_guess` guesses first for a path, as text, or
/// `application/octet-stream` where it has no guess.
pub uninterp spec fn guessed_mime(path: Seq<char>) -> Seq<char>;

/// `mime_guess::from_path(path).first_or_octet_stream()`, written as text:
/// a guess by the path's extension alone, without looking at the file.
#[verifier::external_body]
fn guess_mime(path: &str) -> (out: String)
    ensures
        out@ == guessed_mime(path@),
{
    mime_guess::from_path(path).first_or_octet_stream().to_string()
}

/// Largest file that may be attached, in bytes: 25 MB.
pub const MAX_FILE_SIZE: u64 = 26_214_400;

/// What looking at a file gave.
#[derive(Debug)]
pub enum FileProbe {
    /// There is no such file.
    Missing,
    /// The file is there, and its metadata could not be read; the reason.
    Unreadable(String),
    /// The file is there and has this many bytes.
    Found { size: u64 },
}

/// A file to attach to a message.
#[derive(Debug)]
pub struct FileAttachment {
    /// Where the file is.
    pub path: String,
    /// The name it is uploaded under.
    pub filename: String,
    /// Its media type.
    pub mime_type: String,
    /// Its size in bytes.
    pub size: u64,
    /// Alt text, if any.
    pub description: Option<String>,
}

/// Mathematical image of a file attachment.
pub struct FileView {
    pub path: Seq<char>,
    pub filename: Seq<char>,
    pub mime_type: Seq<char>,
    pub size: u64,
    pub description: Option<Seq<char>>,
}

impl View for FileAttachment {
    type V = FileView;

    open spec fn view(&self) -> FileView {
        FileView {
            path: self.path@,
            filename: self.filename@,
            mime_type: self.mime_type@,
            size: self.size,
            description: optional(self.description),
        }
    }
}

impl Clone for FileAttachment {
    fn clone(&self) -> (out: Self)
        ensures
            out@ == self@,
    {
        FileAttachment {
            path: self.path.clone(),
            filename: self.filename.clone(),
            mime_type: self.mime_type.clone(),
            size: self.size,
            description: match &self.description {
                Some(text) => Some(text.clone()),
                None => None,
            },
        }
    }
}

/// The attachment that a path and a look at its file give: the file must
/// be there, hold at most 25 MB, have a file name and, by its extension, be
/// an image.
pub open spec fn attachment_for(path: Seq<char>, probe: FileProbe) -> Result<FileView, ErrorView> {
    match probe {
        FileProbe::Missing => Err(ErrorView::Attachment("File not found: "@ + path)),
        FileProbe::Unreadable(reason) => Err(ErrorView::Io(reason@)),
        FileProbe::Found { size } => if size > MAX_FILE_SIZE {
            Err(ErrorView::Attachment("File exceeds Discord's 25MB limit"@))
        } else if path_file_name(path) is None {
            Err(ErrorView::Attachment("Invalid filename"@))
        } else if !"image/"@.is_prefix_of(guessed_mime(path)) {
            Err(
                ErrorView::Attachment(
                    "Not an image file: "@ + path + " (detected type: "@ + guessed_mime(path)
                        + ")"@,
                ),
            )
        } else {
            Ok(
                FileView {
                    path,
                    filename: path_file_name(path)->Some_0,
                    mime_type: guessed_mime(path),
                    size,
                    description: None,
                },
            )
        },
    }
}

/// The views of an attachment or error.
pub open spec fn attachment_view(out: Result<FileAttachment, DiscliError>) -> Result<
    FileView,
    ErrorView,
> {
    match out {
        Ok(file) => Ok(file@),
        Err(e) => Err(e@),
    }
}

impl FileAttachment {
    /// The attachment for the file at `path`; `probe` is what looking at
    /// the file gave.
    pub fn from_path(path: &str, probe: FileProbe) -> (out: Result<FileAttachment, DiscliError>)
        ensures
            attachment_view(out) == attachment_for(path@, probe),
    {
        let size = match probe {
            FileProbe::Missing => {
                return Err(
                    DiscliError::Attachment(String::from_str("File not found: ").concat(path)),
                );
            },
            FileProbe::Unreadable(reason) => {
                return Err(DiscliError::Io(reason));
            },
            FileProbe::Found { size } => size,
        };
        if size > MAX_FILE_SIZE {
            return Err(
                DiscliError::Attachment(String::from_str("File exceeds Discord's 25MB limit")),
            );
        }
        let filename = match file_name(path) {
            Some(name) => name,
            None => {
                return Err(DiscliError::Attachment(String::from_str("Invalid filename")));
            },
        };
        let mime_type = guess_mime(path);
        if !starts_with(mime_type.as_str(), "image/") {
            return Err(
                DiscliError::Attachment(
                    String::from_str("Not an image file: ").concat(path).concat(
                        " (detected type: ",
                    ).concat(mime_type.as_str()).concat(")"),
                ),
            );
        }
        Ok(
            FileAttachment {
                path: String::from_str(path),
                filename,
                mime_type,
                size,
                description: None,
            },
        )
    }

    /// The attachment with `description` as its alt text.
    pub fn with_description(self, description: String) -> (out: Self)
        ensures
            out@ == (FileView { description: Some(description@), ..self@ }),
    {
        let mut out = self;
        out.description = Some(description);
        out
    }
}

impl From<FileAttachment> for DiscordFileAttachment {
    fn from(file: FileAttachment) -> (out: DiscordFileAttachment) {
        DiscordFileAttachment {
            path: file.path,
            filename: file.filename,
            mime_type: file.mime_type,
            size: file.size,
            description: file.description,
        }
    }
}

impl vstd::std_specs::convert::FromSpecImpl<FileAttachment> for DiscordFileAttachment {
    open spec fn obeys_from_spec() -> bool {
        true
    }

    open spec fn from_spec(file: FileAttachment) -> DiscordFileAttachment {
        DiscordFileAttachment {
            path: file.path,
            filename: file.filename,
            mime_type: file.mime_type,
            size: file.size,
            description: file.description,
        }
    }
}

} // verus!
