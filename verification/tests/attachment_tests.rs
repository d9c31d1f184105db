use models_openai::attachments::{
    attachment_bytes, build_upload_request, plan_uploads, should_upload_attachment,
};
use models_openai::error::Error;
use models_openai::responses::ResponseContent;
use models_openai::schema::{File, InstructionAttachment};

fn attachment(alias: &str, media_type: Option<&str>, content: Option<&str>) -> InstructionAttachment {
    let mut file = File::new("notes.txt".into(), "notes.txt".into());
    file.media_type = media_type.map(|m| m.to_string());
    file.content = content.map(|c| c.to_string());
    InstructionAttachment::new(alias.into(), file)
}

#[test]
fn classifier_accepts_only_uploadable_media_types() {
    assert!(should_upload_attachment(&attachment("a", Some("application/pdf"), None)));
    assert!(should_upload_attachment(&attachment("a", Some("APPLICATION/PDF"), None)));
    assert!(should_upload_attachment(&attachment("a", Some("image/png"), None)));
    assert!(should_upload_attachment(&attachment("a", Some("audio/mpeg"), None)));
    assert!(should_upload_attachment(&attachment("a", Some("video/mp4"), None)));
    assert!(!should_upload_attachment(&attachment("a", Some("text/plain"), None)));
    assert!(!should_upload_attachment(&attachment("a", Some("application/json"), None)));
    assert!(!should_upload_attachment(&attachment("a", None, None)));
}

#[test]
fn plan_skips_non_uploadable_attachments() {
    let atts = vec![
        attachment("notes", Some("text/plain"), Some("hello")),
        attachment("data", Some("application/json"), Some("{}")),
    ];
    let (requests, attempted) = plan_uploads(&atts);
    assert!(requests.is_empty());
    assert!(!attempted);
}

#[test]
fn plan_prepares_eligible_attachments_in_order() {
    let atts = vec![
        attachment("notes", Some("text/plain"), Some("hello")),
        attachment("scan", Some("image/png"), Some("abc")),
        attachment("doc", Some("application/pdf"), Some("pdf-bytes")),
    ];
    let (requests, attempted) = plan_uploads(&atts);
    assert!(attempted);
    assert_eq!(requests.len(), 2);
    assert_eq!(requests[0].alias, "scan");
    assert_eq!(requests[0].media_type, "image/png");
    assert_eq!(requests[0].purpose, "assistants");
    assert_eq!(requests[0].bytes, b"abc".to_vec());
    assert_eq!(requests[1].alias, "doc");
}

#[test]
fn plan_counts_a_failed_extraction_as_attempted() {
    let atts = vec![attachment("scan", Some("image/png"), None)];
    let (requests, attempted) = plan_uploads(&atts);
    assert!(requests.is_empty());
    assert!(attempted);
}

#[test]
fn base64_content_is_decoded() {
    let mut a = attachment("scan", Some("image/png"), Some("aGVsbG8="));
    a.file.transfer_encoding = Some("BASE64".into());
    // Would fail if the decoding call handed its argument back unchanged.
    assert_eq!(attachment_bytes(&a).unwrap(), b"hello".to_vec());
}

#[test]
fn invalid_base64_is_an_encoding_error() {
    let mut a = attachment("scan", Some("image/png"), Some("!!not-base64!!"));
    a.file.transfer_encoding = Some("base64".into());
    assert_eq!(attachment_bytes(&a), Err(Error::InvalidBase64 { alias: "scan".into() }));
}

#[test]
fn missing_content_is_an_error_naming_the_alias() {
    let a = attachment("scan", Some("image/png"), None);
    assert_eq!(attachment_bytes(&a), Err(Error::NoAttachmentContent { alias: "scan".into() }));
}

#[test]
fn raw_content_is_passed_through() {
    let a = attachment("scan", Some("image/png"), Some("raw bytes"));
    assert_eq!(attachment_bytes(&a).unwrap(), b"raw bytes".to_vec());
}

#[test]
fn upload_filename_falls_back_to_alias() {
    let mut a = attachment("scan", Some("image/png"), Some("x"));
    a.file.name = "   ".into();
    let u = build_upload_request(&a).unwrap();
    assert_eq!(u.filename, "scan.bin");
    let b = attachment("scan", Some("image/png"), Some("x"));
    let u = build_upload_request(&b).unwrap();
    assert_eq!(u.filename, "notes.txt");
}

#[test]
fn upload_media_type_falls_back_to_octet_stream() {
    let a = attachment("scan", None, Some("x"));
    let u = build_upload_request(&a).unwrap();
    assert_eq!(u.media_type, "application/octet-stream");
}

#[test]
fn uploaded_image_becomes_labelled_image_block() {
    let up = models_openai::attachments::UploadedAttachment {
        alias: "scan".into(),
        file_id: "file-123".into(),
        media_type: "image/png".into(),
    };
    let contents = up.to_contents();
    assert_eq!(contents.len(), 2);
    match &contents[0] {
        ResponseContent::InputText { text } => assert_eq!(text, "Attachment `scan`"),
        other => panic!("expected a text block, got {:?}", other),
    }
    match &contents[1] {
        ResponseContent::InputImage { file_id, image_url } => {
            assert_eq!(file_id.as_deref(), Some("file-123"));
            assert!(image_url.is_none());
        }
        other => panic!("expected an image block, got {:?}", other),
    }
}

#[test]
fn uploaded_pdf_becomes_labelled_file_block() {
    let up = models_openai::attachments::UploadedAttachment {
        alias: "doc".into(),
        file_id: "file-9".into(),
        media_type: "application/pdf".into(),
    };
    let contents = up.to_contents();
    assert_eq!(contents.len(), 2);
    match &contents[1] {
        ResponseContent::InputFile { file_id } => assert_eq!(file_id, "file-9"),
        other => panic!("expected a file block, got {:?}", other),
    }
}
