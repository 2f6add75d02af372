//! Building an outbound message step by step.

use crate::discord::types::{
    upload_views, DiscordMessage, FileAttachment as DiscordFileAttachment, MessageView, UploadView,
};
use crate::error::{DiscliError, ErrorView};
use crate::message::attachment::{attachment_for, FileAttachment, FileProbe, FileView};
use crate::text::optional;
use vstd::prelude::*;
use vstd::string::StringExecFns;

verus! {

/// A message under construction.
#[derive(Debug)]
pub struct MessageBuilder {
    /// The text, once set.
    pub content: Option<String>,
    /// The files added so far.
    pub attachments: Vec<DiscordFileAttachment>,
}

/// A file to add: its path and what looking at it gave.
#[derive(Debug)]
pub struct ProbedFile {
    pub path: String,
    pub probe: FileProbe,
}

/// The upload that an attachment becomes.
pub open spec fn upload_of(file: FileView) -> UploadView {
    UploadView {
        path: file.path,
        filename: file.filename,
        mime_type: file.mime_type,
        size: file.size,
        description: file.description,
    }
}

/// The uploads after the first `count` of `files` were added to `uploads`,
/// or the error of the first file that was refused.
pub open spec fn uploads_with(uploads: Seq<UploadView>, files: Seq<ProbedFile>, count: nat) -> Result<
    Seq<UploadView>,
    ErrorView,
>
    decreases count,
{
    if count == 0 || count > files.len() {
        Ok(uploads)
    } else {
        match uploads_with(uploads, files, (count - 1) as nat) {
            Err(e) => Err(e),
            Ok(before) => match attachment_for(files[count - 1].path@, files[count - 1].probe) {
                Ok(file) => Ok(before.push(upload_of(file))),
                Err(e) => Err(e),
            },
        }
    }
}

/// The message that text and uploads make: text alone is a simple message,
/// empty where no text was set; with uploads the text stays optional.
pub open spec fn built(content: Option<Seq<char>>, uploads: Seq<UploadView>) -> MessageView {
    if uploads.len() == 0 {
        MessageView::Simple(
            match content {
                Some(text) => text,
                None => Seq::empty(),
            },
        )
    } else {
        MessageView::WithAttachments { content, attachments: uploads }
    }
}

impl MessageBuilder {
    /// A builder without text and files.
    pub fn new() -> (out: Self)
        ensures
            out.content is None,
            out.attachments@.len() == 0,
    {
        MessageBuilder { content: None, attachments: Vec::new() }
    }

    /// Sets the text.
    pub fn content(self, content: &str) -> (out: Self)
        ensures
            optional(out.content) == Some(content@),
            out.attachments == self.attachments,
    {
        let mut out = self;
        out.content = Some(String::from_str(content));
        out
    }

    /// Adds the file at `path`; `probe` is what looking at the file gave.
    pub fn add_attachment(self, path: &str, probe: FileProbe) -> (out: Result<Self, DiscliError>)
        ensures
            match attachment_for(path@, probe) {
                Ok(file) => out matches Ok(builder) && builder.content == self.content
                    && upload_views(builder.attachments@) == upload_views(self.attachments@).push(
                    upload_of(file),
                ),
                Err(e) => out matches Err(error) && error@ == e,
            },
    {
        let mut out = self;
        match FileAttachment::from_path(path, probe) {
            Ok(file) => {
                let ghost before = upload_views(out.attachments@);
                let ghost added = upload_of(file@);
                let upload: DiscordFileAttachment = DiscordFileAttachment::from(file);
                out.attachments.push(upload);
                assert(upload_views(out.attachments@) =~= before.push(added));
                Ok(out)
            },
            Err(e) => Err(e),
        }
    }

    /// Adds the files in order, and stops at the first that is refused.
    pub fn add_attachments(self, files: Vec<ProbedFile>) -> (out: Result<Self, DiscliError>)
        ensures
            match uploads_with(upload_views(self.attachments@), files@, files@.len()) {
                Ok(uploads) => out matches Ok(builder) && builder.content == self.content
                    && upload_views(builder.attachments@) == uploads,
                Err(e) => out matches Err(error) && error@ == e,
            },
    {
        let mut out = self;
        let mut queue = files;
        let ghost all = queue@;
        let ghost start = upload_views(self.attachments@);
        let mut rest: Vec<ProbedFile> = Vec::new();
        while queue.len() > 0
            invariant
                queue@.len() + rest@.len() == all.len(),
                forall|k: int| 0 <= k < rest@.len() ==> rest@[k] == all[all.len() - 1 - k],
                forall|k: int| 0 <= k < queue@.len() ==> queue@[k] == all[k],
            decreases queue@.len(),
        {
            match queue.pop() {
                Some(file) => rest.push(file),
                None => {},
            }
        }
        let ghost mut done: nat = 0;
        while rest.len() > 0
            invariant
                done + rest@.len() == all.len(),
                all == files@,
                start == upload_views(self.attachments@),
                forall|k: int| 0 <= k < rest@.len() ==> rest@[k] == all[all.len() - 1 - k],
                out.content == self.content,
                uploads_with(start, all, done) == Ok::<Seq<UploadView>, ErrorView>(
                    upload_views(out.attachments@),
                ),
            decreases rest@.len(),
        {
            match rest.pop() {
                Some(file) => {
                    assert(file == all[done as int]);
                    let ProbedFile { path, probe } = file;
                    match out.add_attachment(path.as_str(), probe) {
                        Ok(next) => {
                            out = next;
                            proof {
                                done = done + 1;
                            }
                        },
                        Err(e) => {
                            proof {
                                assert(uploads_with(start, all, done + 1) == Err::<
                                    Seq<UploadView>,
                                    ErrorView,
                                >(e@));
                                lemma_first_error_stays(start, all, done + 1, all.len());
                            }
                            return Err(e);
                        },
                    }
                },
                None => {},
            }
        }
        Ok(out)
    }

    /// The message built.
    pub fn build(self) -> (out: DiscordMessage)
        ensures
            out@ == built(optional(self.content), upload_views(self.attachments@)),
    {
        if self.attachments.len() == 0 {
            DiscordMessage::Simple {
                content: match self.content {
                    Some(text) => text,
                    None => String::new(),
                },
            }
        } else {
            DiscordMessage::WithAttachments { content: self.content, attachments: self.attachments }
        }
    }
}

proof fn lemma_first_error_stays(uploads: Seq<UploadView>, files: Seq<ProbedFile>, at: nat, count: nat)
    requires
        uploads_with(uploads, files, at) is Err,
        at <= count <= files.len(),
    ensures
        uploads_with(uploads, files, count) == uploads_with(uploads, files, at),
    decreases count - at,
{
    if at < count {
        lemma_first_error_stays(uploads, files, at, (count - 1) as nat);
    }
}

impl Default for MessageBuilder {
    fn default() -> (out: Self)
        ensures
            out.content is None,
            out.attachments@.len() == 0,
    {
        MessageBuilder::new()
    }
}

} // verus!
