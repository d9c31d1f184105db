//! The single error type every fatal condition propagates as.

use vstd::prelude::*;

verus! {

/// A fatal condition of a task or a catalog fetch.
///
/// Non-fatal conditions (skipped attachments, dropped message parts) never
/// appear here; they only narrow what a request carries.
#[derive(Clone, Debug, PartialEq, Eq)]
pub enum Error {
    /// No credential was available for a generation attempt.
    MissingCredential,
    /// The task carries attachments but the model declares no non-text
    /// input capability; names the rejected model.
    UnsupportedAttachments { model_id: String },
    /// An attachment picked for upload has no inline content.
    NoAttachmentContent { alias: String },
    /// An attachment declared base64 transfer encoding but its content is
    /// not valid base64.
    InvalidBase64 { alias: String },
    /// Every attempted attachment upload failed.
    NoUploadsSucceeded,
    /// The provider answered a request with a non-success status.
    Provider { status: u16, body: String },
    /// The provider answered the one capability-fallback retry with a
    /// non-success status; carries that retry's status and body verbatim.
    ProviderAfterRetry { status: u16, body: String },
    /// A request failed before a status was available (transport failure).
    RequestFailed { detail: String },
    /// A successful response carried no usable output text.
    EmptyOutputText,
    /// A successful image response carried no image results.
    EmptyImageData,
    /// The first image result was not of the requested URL form.
    UnexpectedImageType,
    /// The requested image size matches none of the provider's options.
    UnsupportedImageSize { width: u32, height: u32 },
    /// The requested image quality matches no known keyword.
    UnsupportedImageQuality { value: String },
    /// The requested image style matches no known keyword.
    UnsupportedImageStyle { value: String },
}

/// The character of one decimal digit.
pub open spec fn dec_digit(d: int) -> char {
    if d == 0 {
        '0'
    } else if d == 1 {
        '1'
    } else if d == 2 {
        '2'
    } else if d == 3 {
        '3'
    } else if d == 4 {
        '4'
    } else if d == 5 {
        '5'
    } else if d == 6 {
        '6'
    } else if d == 7 {
        '7'
    } else if d == 8 {
        '8'
    } else {
        '9'
    }
}

/// The decimal digits of a non-negative number, most significant first.
pub open spec fn dec_chars(n: int) -> Seq<char>
    decreases n,
{
    if n < 10 {
        seq![dec_digit(n)]
    } else {
        dec_chars(n / 10).push(dec_digit(n % 10))
    }
}

/// Appends one decimal digit.
fn append_digit(s: &mut String, d: u8)
    requires
        d < 10,
    ensures
        final(s)@ == old(s)@.push(dec_digit(d as int)),
{
    proof {
        reveal_strlit("0");
        reveal_strlit("1");
        reveal_strlit("2");
        reveal_strlit("3");
        reveal_strlit("4");
        reveal_strlit("5");
        reveal_strlit("6");
        reveal_strlit("7");
        reveal_strlit("8");
        reveal_strlit("9");
    }
    let ghost pre = s@;
    if d == 0 {
        s.append("0");
    } else if d == 1 {
        s.append("1");
    } else if d == 2 {
        s.append("2");
    } else if d == 3 {
        s.append("3");
    } else if d == 4 {
        s.append("4");
    } else if d == 5 {
        s.append("5");
    } else if d == 6 {
        s.append("6");
    } else if d == 7 {
        s.append("7");
    } else if d == 8 {
        s.append("8");
    } else {
        s.append("9");
    }
    proof {
        assert(s@ =~= pre.push(dec_digit(d as int)));
    }
}

/// Appends a number in decimal.
fn append_decimal(s: &mut String, n: u64)
    ensures
        final(s)@ == old(s)@ + dec_chars(n as int),
    decreases n,
{
    if n >= 10 {
        append_decimal(s, n / 10);
    }
    append_digit(s, (n % 10) as u8);
    proof {
        assert(s@ =~= old(s)@ + dec_chars(n as int));
    }
}

/// The human-readable message of an error.
pub open spec fn message_of(e: Error) -> Seq<char> {
    match e {
        Error::MissingCredential => "The OPENAI_API_KEY environment variable or secret is not available"@,
        Error::UnsupportedAttachments { model_id } => "Model `"@ + model_id@
            + "` does not yet support file attachments. Select an OpenAI `gpt-5*` model or remove attachments."@,
        Error::NoAttachmentContent { alias } => "Attachment `"@ + alias@
            + "` does not have any inline content to upload."@,
        Error::InvalidBase64 { alias } => "Attachment `"@ + alias@ + "` content is invalid base64."@,
        Error::NoUploadsSucceeded => "No attachments were uploaded successfully."@,
        Error::Provider { status, body } => "OpenAI responses API returned "@ + dec_chars(
            status as int,
        ) + ": "@ + body@,
        Error::ProviderAfterRetry { status, body } => "OpenAI responses API returned "@ + dec_chars(
            status as int,
        ) + " after vision retry: "@ + body@,
        Error::RequestFailed { detail } => detail@,
        Error::EmptyOutputText => "OpenAI response did not contain output text"@,
        Error::EmptyImageData => "Response data is unexpectedly empty"@,
        Error::UnexpectedImageType => "Unexpected image type"@,
        Error::UnsupportedImageSize { width, height } => "Unsupported image size `"@ + dec_chars(
            width as int,
        ) + "x"@ + dec_chars(height as int) + "`"@,
        Error::UnsupportedImageQuality { value } => "Unsupported image quality `"@ + value@ + "`"@,
        Error::UnsupportedImageStyle { value } => "Unsupported image style `"@ + value@ + "`"@,
    }
}

impl Error {
    /// The human-readable message this error carries.
    pub fn message(&self) -> (r: String)
        ensures
            r@ == message_of(*self),
    {
        let mut s = String::new();
        match self {
            Error::MissingCredential => {
                s.append("The OPENAI_API_KEY environment variable or secret is not available");
            },
            Error::UnsupportedAttachments { model_id } => {
                s.append("Model `");
                s.append(model_id.as_str());
                s.append(
                    "` does not yet support file attachments. Select an OpenAI `gpt-5*` model or remove attachments.",
                );
            },
            Error::NoAttachmentContent { alias } => {
                s.append("Attachment `");
                s.append(alias.as_str());
                s.append("` does not have any inline content to upload.");
            },
            Error::InvalidBase64 { alias } => {
                s.append("Attachment `");
                s.append(alias.as_str());
                s.append("` content is invalid base64.");
            },
            Error::NoUploadsSucceeded => {
                s.append("No attachments were uploaded successfully.");
            },
            Error::Provider { status, body } => {
                s.append("OpenAI responses API returned ");
                append_decimal(&mut s, *status as u64);
                s.append(": ");
                s.append(body.as_str());
            },
            Error::ProviderAfterRetry { status, body } => {
                s.append("OpenAI responses API returned ");
                append_decimal(&mut s, *status as u64);
                s.append(" after vision retry: ");
                s.append(body.as_str());
            },
            Error::RequestFailed { detail } => {
                s.append(detail.as_str());
            },
            Error::EmptyOutputText => {
                s.append("OpenAI response did not contain output text");
            },
            Error::EmptyImageData => {
                s.append("Response data is unexpectedly empty");
            },
            Error::UnexpectedImageType => {
                s.append("Unexpected image type");
            },
            Error::UnsupportedImageSize { width, height } => {
                s.append("Unsupported image size `");
                append_decimal(&mut s, *width as u64);
                s.append("x");
                append_decimal(&mut s, *height as u64);
                s.append("`");
            },
            Error::UnsupportedImageQuality { value } => {
                s.append("Unsupported image quality `");
                s.append(value.as_str());
                s.append("`");
            },
            Error::UnsupportedImageStyle { value } => {
                s.append("Unsupported image style `");
                s.append(value.as_str());
                s.append("`");
            },
        }
        proof {
            assert(s@ =~= message_of(*self));
        }
        s
    }
}

} // verus!
