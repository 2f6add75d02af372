//! The platform's limits on one message.

use crate::error::{DiscliError, ErrorView};
use crate::text::{decimal, decimal_string};
use vstd::prelude::*;
use vstd::string::{StringExecFns, StringSliceAdditionalSpecFns};

verus! {

/// Most attachments of one message.
pub const MAX_ATTACHMENTS: usize = 10;

/// Most bytes of one message's content.
pub const MAX_LENGTH: usize = 2000;

/// The error for `count` attachments.
pub open spec fn too_many_attachments(count: nat) -> ErrorView {
    ErrorView::Validation(
        "Cannot attach more than "@ + decimal(MAX_ATTACHMENTS as nat) + " images (got "@ + decimal(
            count,
        ) + ")"@,
    )
}

/// The error for content of `length` bytes.
pub open spec fn content_too_long(length: nat) -> ErrorView {
    ErrorView::Validation(
        "Message content exceeds Discord's "@ + decimal(MAX_LENGTH as nat)
            + " character limit (got "@ + decimal(length) + ")"@,
    )
}

/// Accepts up to ten attachments.
pub fn validate_attachment_count(count: usize) -> (out: Result<(), DiscliError>)
    ensures
        count <= MAX_ATTACHMENTS ==> out is Ok,
        count > MAX_ATTACHMENTS ==> (out matches Err(e) && e@ == too_many_attachments(
            count as nat,
        )),
{
    if count > MAX_ATTACHMENTS {
        let message = String::from_str("Cannot attach more than ").concat(
            decimal_string(MAX_ATTACHMENTS as u64).as_str(),
        ).concat(" images (got ").concat(decimal_string(count as u64).as_str()).concat(")");
        return Err(DiscliError::Validation(message));
    }
    Ok(())
}

/// Accepts content of up to 2000 bytes of UTF-8.
pub fn validate_content_length(content: &str) -> (out: Result<(), DiscliError>)
    ensures
        content.spec_bytes().len() <= MAX_LENGTH ==> out is Ok,
        content.spec_bytes().len() > MAX_LENGTH ==> (out matches Err(e) && e@ == content_too_long(
            content.spec_bytes().len(),
        )),
{
    let length = content.as_bytes().len();
    if length > MAX_LENGTH {
        let message = String::from_str("Message content exceeds Discord's ").concat(
            decimal_string(MAX_LENGTH as u64).as_str(),
        ).concat(" character limit (got ").concat(decimal_string(length as u64).as_str()).concat(
            ")",
        );
        return Err(DiscliError::Validation(message));
    }
    Ok(())
}

} // verus!
