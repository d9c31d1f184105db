//! Attachment classification, payload extraction and upload planning.
//!
//! An attachment is uploaded out-of-band only when its declared media type
//! is in the uploadable set; everything else is silently left out of the
//! request.  For an uploadable attachment the payload bytes are taken from
//! the inline content, decoding base64 when the transfer-encoding hint says
//! so, and a multipart upload request is prepared for the harness to send.

#![verifier::loop_isolation(false)]

use vstd::prelude::*;

use crate::error::Error;
use crate::responses::ResponseContent;
use crate::schema::{File, InstructionAttachment};
use crate::text::{eq_ignore_case, str_eq_ignore_case, str_starts_with, str_trim, trimmed};
use vstd::utf8::encode_utf8;

verus! {

/// What decoding a character sequence as standard base64 yields: the
/// decoded bytes, or nothing when the text is not valid base64.
pub uninterp spec fn base64_standard_decoding(s: Seq<char>) -> Option<Seq<u8>>;

/// Relies on base64's `Engine::decode` with the standard alphabet and
/// padding: the outcome is a function of the input bytes alone, some
/// decoded bytes for valid base64 and an error otherwise.
#[verifier::external_body]
fn base64_decode(content: &str) -> (r: Option<Vec<u8>>)
    ensures
        r is Some <==> base64_standard_decoding(content@) is Some,
        r matches Some(v) ==> base64_standard_decoding(content@) == Some(v@),
{
    base64::Engine::decode(&base64::engine::general_purpose::STANDARD, content.as_bytes()).ok()
}

/// Whether the declared media type puts an attachment in the uploadable
/// set: a PDF, or any image, audio or video type.
pub open spec fn upload_eligible(a: InstructionAttachment) -> bool {
    match a.file.media_type {
        Some(mt) => eq_ignore_case(mt@, "application/pdf"@) || "image/"@.is_prefix_of(mt@)
            || "audio/"@.is_prefix_of(mt@) || "video/"@.is_prefix_of(mt@),
        None => false,
    }
}

/// Decides whether an attachment's media type requires out-of-band upload;
/// attachments with an absent or unrecognized media type are skipped.
pub fn should_upload_attachment(attachment: &InstructionAttachment) -> (r: bool)
    ensures
        r == upload_eligible(*attachment),
{
    match &attachment.file.media_type {
        Some(mt) => str_eq_ignore_case(mt.as_str(), "application/pdf") || str_starts_with(
            mt.as_str(),
            "image/",
        ) || str_starts_with(mt.as_str(), "audio/") || str_starts_with(mt.as_str(), "video/"),
        None => false,
    }
}

/// Whether a file declares its inline content to be base64-encoded.
pub open spec fn declares_base64(f: File) -> bool {
    match f.transfer_encoding {
        Some(e) => eq_ignore_case(e@, "base64"@),
        None => false,
    }
}

/// The payload bytes of an attachment, when they can be extracted: the
/// inline content's bytes, decoded when declared base64.
pub open spec fn payload_of(a: InstructionAttachment) -> Option<Seq<u8>> {
    match a.file.content {
        None => None,
        Some(c) => if declares_base64(a.file) {
            base64_standard_decoding(c@)
        } else {
            Some(encode_utf8(c@))
        },
    }
}

/// Extracts the bytes to upload for an attachment: the inline content,
/// base64-decoded when the file declares that encoding.  Fails when there
/// is no inline content or the declared base64 does not decode.
pub fn attachment_bytes(attachment: &InstructionAttachment) -> (r: Result<Vec<u8>, Error>)
    ensures
        match r {
            Ok(v) => payload_of(*attachment) == Some(v@),
            Err(e) => payload_of(*attachment) is None && (match e {
                Error::NoAttachmentContent { alias } => attachment.file.content is None && alias
                    == attachment.alias,
                Error::InvalidBase64 { alias } => attachment.file.content is Some && alias
                    == attachment.alias,
                _ => false,
            }),
        },
{
    match &attachment.file.content {
        None => Err(Error::NoAttachmentContent { alias: attachment.alias.clone() }),
        Some(content) => {
            let is_base64 = match &attachment.file.transfer_encoding {
                Some(e) => str_eq_ignore_case(e.as_str(), "base64"),
                None => false,
            };
            if is_base64 {
                match base64_decode(content.as_str()) {
                    Some(bytes) => Ok(bytes),
                    None => Err(Error::InvalidBase64 { alias: attachment.alias.clone() }),
                }
            } else {
                Ok(vstd::slice::slice_to_vec(content.as_str().as_bytes()))
            }
        },
    }
}

/// The filename an upload is labelled with: the file's name, or
/// `<alias>.bin` when the name is blank.
pub open spec fn upload_filename(a: InstructionAttachment) -> Seq<char> {
    if trimmed(a.file.name@).len() == 0 {
        a.alias@ + ".bin"@
    } else {
        a.file.name@
    }
}

/// The media type an upload is labelled with: the declared one, or the
/// generic byte-stream type when none is declared.
pub open spec fn upload_media_type(a: InstructionAttachment) -> Seq<char> {
    match a.file.media_type {
        Some(mt) => mt@,
        None => "application/octet-stream"@,
    }
}

/// One prepared multipart upload: everything the file-storage endpoint is
/// handed for one attachment.
#[derive(Clone, Debug)]
pub struct UploadRequest {
    /// The alias of the attachment this upload belongs to.
    pub alias: String,
    /// The filename the payload is labelled with.
    pub filename: String,
    /// The media type the payload is labelled with.
    pub media_type: String,
    /// The fixed purpose field of the upload form.
    pub purpose: String,
    /// The payload bytes.
    pub bytes: Vec<u8>,
}

/// `u` is the prepared upload of attachment `a`.
pub open spec fn is_upload_of(a: InstructionAttachment, u: UploadRequest) -> bool {
    &&& u.alias@ == a.alias@
    &&& u.filename@ == upload_filename(a)
    &&& u.media_type@ == upload_media_type(a)
    &&& u.purpose@ == "assistants"@
    &&& payload_of(a) == Some(u.bytes@)
}

/// Prepares the multipart upload of one eligible attachment.
pub fn build_upload_request(attachment: &InstructionAttachment) -> (r: Result<UploadRequest, Error>)
    ensures
        match r {
            Ok(u) => payload_of(*attachment) is Some && is_upload_of(*attachment, u),
            Err(e) => payload_of(*attachment) is None && (match e {
                Error::NoAttachmentContent { alias } => attachment.file.content is None && alias
                    == attachment.alias,
                Error::InvalidBase64 { alias } => attachment.file.content is Some && alias
                    == attachment.alias,
                _ => false,
            }),
        },
{
    let bytes = match attachment_bytes(attachment) {
        Ok(b) => b,
        Err(e) => {
            return Err(e);
        },
    };
    let name_trimmed = str_trim(attachment.file.name.as_str());
    let filename = if name_trimmed.as_str().unicode_len() == 0 {
        let mut f = attachment.alias.clone();
        f.append(".bin");
        f
    } else {
        attachment.file.name.clone()
    };
    let media_type = match &attachment.file.media_type {
        Some(mt) => mt.clone(),
        None => "application/octet-stream".to_owned(),
    };
    Ok(
        UploadRequest {
            alias: attachment.alias.clone(),
            filename,
            media_type,
            purpose: "assistants".to_owned(),
            bytes,
        },
    )
}

/// Whether an attachment both requires upload and yields a payload; only
/// such attachments produce a prepared upload request.
pub open spec fn planned_upload(a: InstructionAttachment) -> bool {
    upload_eligible(a) && payload_of(a) is Some
}

/// Only attachments in the uploadable set ever reach an upload request:
/// every planned upload stems from an upload-eligible attachment, so a
/// skipped media type never appears in a transfer.
pub proof fn lemma_planned_uploads_eligible(atts: Seq<InstructionAttachment>, k: int)
    requires
        0 <= k < atts.filter(|a: InstructionAttachment| planned_upload(a)).len(),
    ensures
        upload_eligible(atts.filter(|a: InstructionAttachment| planned_upload(a))[k]),
{
    atts.lemma_filter_pred(|a: InstructionAttachment| planned_upload(a), k);
}

proof fn lemma_filter_push_att(s: Seq<InstructionAttachment>, pred: spec_fn(InstructionAttachment) -> bool, x: InstructionAttachment)
    ensures
        s.push(x).filter(pred) == if pred(x) {
            s.filter(pred).push(x)
        } else {
            s.filter(pred)
        },
{
    reveal(Seq::filter);
    assert(s.push(x).drop_last() =~= s);
    assert(s.push(x).last() == x);
}

/// Walks the attachments in task order and prepares one upload request per
/// uploadable attachment whose payload can be extracted; an attachment
/// whose payload cannot be extracted counts as attempted but produces no
/// request.  Returns the prepared requests and whether any upload was
/// attempted at all.
pub fn plan_uploads(attachments: &Vec<InstructionAttachment>) -> (r: (Vec<UploadRequest>, bool))
    ensures
        r.1 == (exists|i: int|
            0 <= i < attachments@.len() && upload_eligible(#[trigger] attachments@[i])),
        r.0@.len() == attachments@.filter(|a: InstructionAttachment| planned_upload(a)).len(),
        forall|k: int|
            0 <= k < r.0@.len() ==> is_upload_of(
                attachments@.filter(|a: InstructionAttachment| planned_upload(a))[k],
                #[trigger] r.0@[k],
            ),
{
    let ghost pred = |a: InstructionAttachment| planned_upload(a);
    proof {
        reveal(Seq::filter);
        assert(attachments@.take(0) =~= Seq::<InstructionAttachment>::empty());
    }
    let mut requests: Vec<UploadRequest> = Vec::new();
    let mut attempted = false;
    let mut i: usize = 0;
    while i < attachments.len()
        invariant
            i <= attachments@.len(),
            attempted == (exists|j: int|
                0 <= j < i && upload_eligible(#[trigger] attachments@[j])),
            requests@.len() == attachments@.take(i as int).filter(pred).len(),
            forall|k: int|
                0 <= k < requests@.len() ==> is_upload_of(
                    attachments@.take(i as int).filter(pred)[k],
                    #[trigger] requests@[k],
                ),
        decreases attachments@.len() - i,
    {
        proof {
            assert(attachments@.take(i + 1) =~= attachments@.take(i as int).push(
                attachments@[i as int],
            ));
            lemma_filter_push_att(attachments@.take(i as int), pred, attachments@[i as int]);
        }
        let attachment = &attachments[i];
        if should_upload_attachment(attachment) {
            attempted = true;
            match build_upload_request(attachment) {
                Ok(u) => {
                    requests.push(u);
                },
                Err(_) => {
                    // The failure only narrows what is uploaded; whether it
                    // dooms the task is decided once all uploads are in.
                },
            }
        }
        i += 1;
    }
    proof {
        assert(attachments@.take(attachments@.len() as int) =~= attachments@);
    }
    (requests, attempted)
}

/// A successfully uploaded attachment: the alias, the provider's opaque
/// file identifier, and the media type the upload was labelled with.
#[derive(Clone, Debug)]
pub struct UploadedAttachment {
    pub alias: String,
    pub file_id: String,
    pub media_type: String,
}

/// `c0, c1` are the two content blocks an uploaded attachment splices into
/// a request: a text block naming the alias, then an input-image block for
/// an image or a generic input-file block otherwise.
pub open spec fn is_contents_of(u: UploadedAttachment, c0: ResponseContent, c1: ResponseContent) -> bool {
    &&& c0 matches ResponseContent::InputText { text } && text@ == "Attachment `"@ + u.alias@
        + "`"@
    &&& if "image/"@.is_prefix_of(u.media_type@) {
        c1 matches ResponseContent::InputImage { file_id: Some(f), image_url: None } && f@
            == u.file_id@
    } else {
        c1 matches ResponseContent::InputFile { file_id } && file_id@ == u.file_id@
    }
}

impl UploadedAttachment {
    /// The content blocks this upload contributes to the outgoing request.
    pub fn to_contents(&self) -> (r: Vec<ResponseContent>)
        ensures
            r@.len() == 2,
            is_contents_of(*self, r@[0], r@[1]),
    {
        let mut label = String::new();
        label.append("Attachment `");
        label.append(self.alias.as_str());
        label.append("`");
        let mut contents: Vec<ResponseContent> = Vec::new();
        contents.push(ResponseContent::InputText { text: label });
        if str_starts_with(self.media_type.as_str(), "image/") {
            contents.push(
                ResponseContent::InputImage { file_id: Some(self.file_id.clone()), image_url: None },
            );
        } else {
            contents.push(ResponseContent::InputFile { file_id: self.file_id.clone() });
        }
        contents
    }
}

} // verus!
