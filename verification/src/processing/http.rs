//! The HTTP backend: the prompt is posted as JSON, the response body is the
//! response.

use crate::error::{DiscliError, ErrorView};
use crate::json::{field_views, json_object, json_shown, json_text, object_value, show, string_value};
use crate::processing::command::response_view;
use vstd::prelude::*;
use vstd::string::StringExecFns;

verus! {

/// A POST to make for one prompt.
#[derive(Debug)]
pub struct HttpRequest {
    /// The endpoint.
    pub url: String,
    /// The JSON text to post.
    pub body: String,
    /// Bound on the request, in seconds.
    pub timeout_secs: u64,
}

/// Mathematical image of an [`HttpRequest`].
pub struct HttpRequestView {
    pub url: Seq<char>,
    pub body: Seq<char>,
    pub timeout_secs: u64,
}

impl View for HttpRequest {
    type V = HttpRequestView;

    open spec fn view(&self) -> HttpRequestView {
        HttpRequestView { url: self.url@, body: self.body@, timeout_secs: self.timeout_secs }
    }
}

/// How a POST ended.
#[derive(Debug)]
pub enum HttpOutcome {
    /// The bound passed before an answer came; the text says so.
    TimedOut(String),
    /// The request could not be made or answered.
    TransportFailed(String),
    /// An answer came: its status code, the status line as text, and the
    /// body, or why the body could not be read.
    Responded { status: u16, status_text: String, body: Result<String, String> },
}

/// The fields of the JSON object posted for a prompt: the prompt and its
/// metadata, an empty object where there is none.
pub open spec fn payload_fields(prompt: Seq<char>, metadata: Option<serde_json::Value>) -> Seq<
    (Seq<char>, serde_json::Value),
> {
    seq![
        ("prompt"@, json_text(prompt)),
        (
            "metadata"@,
            match metadata {
                Some(value) => value,
                None => json_object(Seq::empty()),
            },
        ),
    ]
}

/// The JSON value posted for a prompt.
pub open spec fn prompt_payload(prompt: Seq<char>, metadata: Option<serde_json::Value>) -> serde_json::Value {
    json_object(payload_fields(prompt, metadata))
}

/// Whether a status code stands for success: 200 to 299.
pub open spec fn is_success(status: u16) -> bool {
    200 <= status < 300
}

/// What a POST's end means: the response, or the error.
pub open spec fn http_result(outcome: HttpOutcome) -> Result<Seq<char>, ErrorView> {
    match outcome {
        HttpOutcome::TimedOut(reason) => Err(ErrorView::Timeout(reason@)),
        HttpOutcome::TransportFailed(reason) => Err(ErrorView::Network(reason@)),
        HttpOutcome::Responded { status, status_text, body } => if is_success(status) {
            match body {
                Ok(text) => Ok(text@),
                Err(reason) => Err(ErrorView::Network(reason@)),
            }
        } else {
            Err(
                ErrorView::Remote(
                    "HTTP webhook failed: "@ + status_text@ + " - "@ + match body {
                        Ok(text) => text@,
                        Err(_) => Seq::empty(),
                    },
                ),
            )
        },
    }
}

/// Runs prompts through an HTTP endpoint, one POST per prompt.
#[derive(Debug)]
pub struct HttpProcessor {
    timeout_secs: u64,
}

impl HttpProcessor {
    /// The bound on one request, in seconds.
    pub closed spec fn timeout(&self) -> u64 {
        self.timeout_secs
    }

    /// A processor whose requests are bounded by `timeout_secs`.
    pub fn new(timeout_secs: u64) -> (out: Self)
        ensures
            out.timeout() == timeout_secs,
    {
        HttpProcessor { timeout_secs }
    }

    /// The POST to make for `prompt`.
    pub fn prepare(&self, url: &str, prompt: &str, metadata: Option<serde_json::Value>) -> (out:
        HttpRequest)
        ensures
            out@ == (HttpRequestView {
                url: url@,
                body: json_shown(prompt_payload(prompt@, metadata)),
                timeout_secs: self.timeout(),
            }),
    {
        let meta = match metadata {
            Some(value) => value,
            None => {
                let none: Vec<(String, serde_json::Value)> = Vec::new();
                assert(field_views(none@) =~= Seq::<(Seq<char>, serde_json::Value)>::empty());
                object_value(none)
            },
        };
        let mut fields: Vec<(String, serde_json::Value)> = Vec::new();
        fields.push((String::from_str("prompt"), string_value(prompt)));
        fields.push((String::from_str("metadata"), meta));
        proof {
            let expected = payload_fields(prompt@, metadata);
            assert(field_views(fields@).len() == 2);
            assert(field_views(fields@)[0] == expected[0]);
            assert(field_views(fields@)[1] == expected[1]);
            assert(field_views(fields@) =~= expected);
        }
        let payload = object_value(fields);
        HttpRequest {
            url: String::from_str(url),
            body: show(&payload),
            timeout_secs: self.timeout_secs,
        }
    }

    /// The response that a POST gave, or why there is none: no answer in
    /// time, no answer at all, or an answer outside 2xx.
    pub fn conclude(&self, outcome: HttpOutcome) -> (out: Result<String, DiscliError>)
        ensures
            response_view(out) == http_result(outcome),
    {
        match outcome {
            HttpOutcome::TimedOut(reason) => Err(DiscliError::Timeout(reason)),
            HttpOutcome::TransportFailed(reason) => Err(DiscliError::Network(reason)),
            HttpOutcome::Responded { status, status_text, body } => {
                if 200 <= status && status < 300 {
                    match body {
                        Ok(text) => Ok(text),
                        Err(reason) => Err(DiscliError::Network(reason)),
                    }
                } else {
                    let text = match body {
                        Ok(text) => text,
                        Err(_) => String::new(),
                    };
                    Err(
                        DiscliError::Remote(
                            String::from_str("HTTP webhook failed: ").concat(
                                status_text.as_str(),
                            ).concat(" - ").concat(text.as_str()),
                        ),
                    )
                }
            },
        }
    }
}

} // verus!
