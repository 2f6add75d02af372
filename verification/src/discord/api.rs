//! Requests to the platform's HTTP API, and what its answers mean.

use crate::discord::types::{upload_views, FileAttachment, UploadView};
use crate::error::{DiscliError, ErrorView};
use crate::json::{
    array_value, field_views, json_array, json_number, json_object, json_shown, json_text,
    number_value, object_value, show, string_value,
};
use crate::message::attachment::MAX_FILE_SIZE;
use crate::text::optional;
use crate::processing::http::is_success;
use crate::text::{decimal, decimal_string};
use vstd::prelude::*;
use vstd::string::StringExecFns;

verus! {

/// One file of a multipart request.
#[derive(Debug)]
pub struct FilePart {
    /// Name of the form field.
    pub field: String,
    /// Where the file is.
    pub path: String,
    /// The name it is uploaded under.
    pub filename: String,
    /// Its media type.
    pub mime_type: String,
}

/// Mathematical image of a [`FilePart`].
pub struct FilePartView {
    pub field: Seq<char>,
    pub path: Seq<char>,
    pub filename: Seq<char>,
    pub mime_type: Seq<char>,
}

impl View for FilePart {
    type V = FilePartView;

    open spec fn view(&self) -> FilePartView {
        FilePartView {
            field: self.field@,
            path: self.path@,
            filename: self.filename@,
            mime_type: self.mime_type@,
        }
    }
}

/// A request to the API.
#[derive(Debug)]
pub enum ApiRequest {
    /// A POST with a JSON body.
    Json { url: String, authorization: String, body: String },
    /// A POST with a multipart form: the message's JSON, where there is
    /// any, and the files.
    Multipart { url: String, authorization: String, payload_json: Option<String>, files: Vec<FilePart> },
}

/// Mathematical image of an [`ApiRequest`].
pub enum ApiRequestView {
    Json { url: Seq<char>, authorization: Seq<char>, body: Seq<char> },
    Multipart {
        url: Seq<char>,
        authorization: Seq<char>,
        payload_json: Option<Seq<char>>,
        files: Seq<FilePartView>,
    },
}

/// The views of a list of file parts.
pub open spec fn part_views(parts: Seq<FilePart>) -> Seq<FilePartView> {
    Seq::new(parts.len(), |i: int| parts[i]@)
}

impl View for ApiRequest {
    type V = ApiRequestView;

    open spec fn view(&self) -> ApiRequestView {
        match self {
            ApiRequest::Json { url, authorization, body } => ApiRequestView::Json {
                url: url@,
                authorization: authorization@,
                body: body@,
            },
            ApiRequest::Multipart { url, authorization, payload_json, files } => ApiRequestView::Multipart {
                url: url@,
                authorization: authorization@,
                payload_json: optional(*payload_json),
                files: part_views(files@),
            },
        }
    }
}

/// The value of the `Authorization` header for a bot token.
pub open spec fn bot_authorization(token: Seq<char>) -> Seq<char> {
    "Bot "@ + token
}

/// The JSON text of a message that is text only.
pub open spec fn content_body(content: Seq<char>) -> Seq<char> {
    json_shown(json_object(seq![("content"@, json_text(content))]))
}

/// What the message's JSON says of upload number `index`.
pub open spec fn upload_entry(index: int, upload: UploadView) -> serde_json::Value {
    match upload.description {
        Some(text) => json_object(
            seq![("id"@, json_number(index as u64)), ("description"@, json_text(text))],
        ),
        None => json_object(seq![("id"@, json_number(index as u64))]),
    }
}

/// What the message's JSON says of the uploads.
pub open spec fn upload_entries(uploads: Seq<UploadView>) -> Seq<serde_json::Value> {
    Seq::new(uploads.len(), |i: int| upload_entry(i, uploads[i]))
}

/// The message's JSON in a multipart request: the text, where there is
/// any, and the uploads. A request without text and uploads has none.
pub open spec fn multipart_payload(content: Option<Seq<char>>, uploads: Seq<UploadView>) -> Option<
    Seq<char>,
> {
    if uploads.len() == 0 && content is None {
        None
    } else {
        Some(
            json_shown(
                json_object(
                    match content {
                        Some(text) => seq![
                            ("content"@, json_text(text)),
                            ("attachments"@, json_array(upload_entries(uploads))),
                        ],
                        None => seq![("attachments"@, json_array(upload_entries(uploads)))],
                    },
                ),
            ),
        )
    }
}

/// The form field of upload number `index`.
pub open spec fn file_field(index: int) -> Seq<char> {
    "files["@ + decimal(index as nat) + "]"@
}

/// The file parts of a multipart request.
pub open spec fn file_parts(uploads: Seq<UploadView>) -> Seq<FilePartView> {
    Seq::new(
        uploads.len(),
        |i: int|
            FilePartView {
                field: file_field(i),
                path: uploads[i].path,
                filename: uploads[i].filename,
                mime_type: uploads[i].mime_type,
            },
    )
}

fn authorization(token: &str) -> (out: String)
    ensures
        out@ == bot_authorization(token@),
{
    String::from_str("Bot ").concat(token)
}

/// The request that sends a message that is text only.
pub fn json_request(url: &str, token: &str, content: &str) -> (out: ApiRequest)
    ensures
        out@ == (ApiRequestView::Json {
            url: url@,
            authorization: bot_authorization(token@),
            body: content_body(content@),
        }),
{
    let mut fields: Vec<(String, serde_json::Value)> = Vec::new();
    fields.push((String::from_str("content"), string_value(content)));
    assert(field_views(fields@) =~= seq![("content"@, json_text(content@))]);
    ApiRequest::Json {
        url: String::from_str(url),
        authorization: authorization(token),
        body: show(&object_value(fields)),
    }
}

fn entry_value(index: usize, upload: &FileAttachment) -> (out: serde_json::Value)
    ensures
        out == upload_entry(index as int, upload@),
{
    let mut fields: Vec<(String, serde_json::Value)> = Vec::new();
    fields.push((String::from_str("id"), number_value(index as u64)));
    match &upload.description {
        Some(text) => {
            fields.push((String::from_str("description"), string_value(text.as_str())));
            assert(field_views(fields@) =~= seq![
                ("id"@, json_number(index as u64)),
                ("description"@, json_text(text@)),
            ]);
        },
        None => {
            assert(field_views(fields@) =~= seq![("id"@, json_number(index as u64))]);
        },
    }
    object_value(fields)
}

/// The request that sends a message with files.
pub fn multipart_request(
    url: &str,
    token: &str,
    content: &Option<String>,
    attachments: &Vec<FileAttachment>,
) -> (out: ApiRequest)
    ensures
        out@ == (ApiRequestView::Multipart {
            url: url@,
            authorization: bot_authorization(token@),
            payload_json: multipart_payload(optional(*content), upload_views(attachments@)),
            files: file_parts(upload_views(attachments@)),
        }),
{
    let ghost uploads = upload_views(attachments@);
    let mut entries: Vec<serde_json::Value> = Vec::new();
    let mut files: Vec<FilePart> = Vec::new();
    let mut i: usize = 0;
    while i < attachments.len()
        invariant
            i <= attachments.len(),
            uploads == upload_views(attachments@),
            entries@.len() == i,
            files@.len() == i,
            forall|k: int| 0 <= k < i ==> entries@[k] == upload_entry(k, uploads[k]),
            forall|k: int| 0 <= k < i ==> (#[trigger] files@[k])@ == file_parts(uploads)[k],
        decreases attachments.len() - i,
    {
        let upload = &attachments[i];
        assert(uploads[i as int] == upload@);
        entries.push(entry_value(i, upload));
        files.push(
            FilePart {
                field: String::from_str("files[").concat(decimal_string(i as u64).as_str()).concat(
                    "]",
                ),
                path: upload.path.clone(),
                filename: upload.filename.clone(),
                mime_type: upload.mime_type.clone(),
            },
        );
        i += 1;
    }
    proof {
        assert(entries@ =~= upload_entries(uploads));
        assert(part_views(files@) =~= file_parts(uploads));
    }
    let payload_json = if attachments.len() == 0 && content.is_none() {
        None
    } else {
        let mut fields: Vec<(String, serde_json::Value)> = Vec::new();
        match content {
            Some(text) => {
                fields.push((String::from_str("content"), string_value(text.as_str())));
                fields.push((String::from_str("attachments"), array_value(entries)));
                assert(field_views(fields@) =~= seq![
                    ("content"@, json_text(text@)),
                    ("attachments"@, json_array(upload_entries(uploads))),
                ]);
            },
            None => {
                fields.push((String::from_str("attachments"), array_value(entries)));
                assert(field_views(fields@) =~= seq![
                    ("attachments"@, json_array(upload_entries(uploads))),
                ]);
            },
        }
        Some(show(&object_value(fields)))
    };
    ApiRequest::Multipart {
        url: String::from_str(url),
        authorization: authorization(token),
        payload_json,
        files,
    }
}

/// Refuses to upload a file of more than 25 MB.
pub fn check_upload(path: &str, size: u64) -> (out: Result<(), DiscliError>)
    ensures
        size <= MAX_FILE_SIZE ==> out is Ok,
        size > MAX_FILE_SIZE ==> (out matches Err(e) && e@ == ErrorView::Attachment(
            "File too large: "@ + path@ + " exceeds 25MB limit"@,
        )),
{
    if size > MAX_FILE_SIZE {
        return Err(
            DiscliError::Attachment(
                String::from_str("File too large: ").concat(path).concat(" exceeds 25MB limit"),
            ),
        );
    }
    Ok(())
}

/// What the API's answer means: nothing to report for a status from 200 to
/// 299; otherwise the API's error with status line and body, or the
/// network error where the body could not be read.
pub open spec fn response_error(status: u16, status_text: Seq<char>, body: Result<String, String>) -> Option<
    ErrorView,
> {
    if is_success(status) {
        None
    } else {
        match body {
            Ok(text) => Some(
                ErrorView::DiscordApi(
                    "Discord API returned error status "@ + status_text + ": "@ + text@,
                ),
            ),
            Err(reason) => Some(ErrorView::Network(reason@)),
        }
    }
}

/// Checks the API's answer to a request.
pub fn check_response(status: u16, status_text: &str, body: Result<String, String>) -> (out: Result<
    (),
    DiscliError,
>)
    ensures
        match out {
            Ok(_) => response_error(status, status_text@, body) is None,
            Err(e) => response_error(status, status_text@, body) == Some(e@),
        },
{
    if 200 <= status && status < 300 {
        return Ok(());
    }
    match body {
        Ok(text) => Err(
            DiscliError::DiscordApi(
                String::from_str("Discord API returned error status ").concat(status_text).concat(
                    ": ",
                ).concat(text.as_str()),
            ),
        ),
        Err(reason) => Err(DiscliError::Network(reason)),
    }
}

} // verus!
