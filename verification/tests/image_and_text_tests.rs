use models_openai::error::Error;
use models_openai::image::{build_image_request, image_output, ImageQuality, ImageResponse, ImageResult, ImageSize, ImageStyle};
use models_openai::schema::{Message, MessagePart, MessageRole, ModelTask, ModelTaskKind, NodeType, File, InstructionAttachment, OutputKind};
use models_openai::text::{join_strings, str_contains, str_eq_ignore_case, str_trim};

fn image_task(size: Option<(u32, u32)>) -> ModelTask {
    ModelTask {
        kind: ModelTaskKind::ImageGeneration,
        messages: vec![Message {
            role: Some(MessageRole::User),
            parts: vec![MessagePart::Text("A quiet harbour".into())],
        }],
        attachments: None,
        dry_run: false,
        temperature: None,
        top_p: None,
        repeat_penalty: None,
        seed: None,
        max_tokens: None,
        stop: None,
        image_size: size,
        image_quality: None,
        image_style: None,
    }
}

#[test]
fn every_enumerated_size_is_matched_exactly() {
    let cases = [
        ((256, 256), ImageSize::S256x256),
        ((512, 512), ImageSize::S512x512),
        ((1024, 1024), ImageSize::S1024x1024),
        ((1024, 1792), ImageSize::S1024x1792),
        ((1792, 1024), ImageSize::S1792x1024),
    ];
    for ((w, h), expected) in cases {
        let request = build_image_request(&image_task(Some((w, h)))).unwrap();
        assert_eq!(request.size, Some(expected), "{}x{}", w, h);
    }
}

#[test]
fn unmatched_size_fails_naming_the_exact_pair() {
    let err = build_image_request(&image_task(Some((640, 480)))).unwrap_err();
    assert_eq!(err, Error::UnsupportedImageSize { width: 640, height: 480 });
    assert_eq!(err.message(), "Unsupported image size `640x480`");
}

#[test]
fn absent_size_sends_no_size_option() {
    let request = build_image_request(&image_task(None)).unwrap();
    assert_eq!(request.size, None);
    assert_eq!(request.prompt, "A quiet harbour");
}

#[test]
fn quality_and_style_match_case_insensitively() {
    let mut task = image_task(None);
    task.image_quality = Some("Std".into());
    task.image_style = Some("NATURAL".into());
    let request = build_image_request(&task).unwrap();
    assert_eq!(request.quality, Some(ImageQuality::Standard));
    assert_eq!(request.style, Some(ImageStyle::Natural));
    task.image_quality = Some("high-definition".into());
    task.image_style = Some("viv".into());
    let request = build_image_request(&task).unwrap();
    assert_eq!(request.quality, Some(ImageQuality::HighDefinition));
    assert_eq!(request.style, Some(ImageStyle::Vivid));
}

#[test]
fn unmatched_quality_and_style_fail_naming_the_value() {
    let mut task = image_task(None);
    task.image_quality = Some("ultra".into());
    let err = build_image_request(&task).unwrap_err();
    assert_eq!(err, Error::UnsupportedImageQuality { value: "ultra".into() });
    assert_eq!(err.message(), "Unsupported image quality `ultra`");
    let mut task = image_task(None);
    task.image_style = Some("grim".into());
    let err = build_image_request(&task).unwrap_err();
    assert_eq!(err, Error::UnsupportedImageStyle { value: "grim".into() });
}

#[test]
fn image_prompt_drops_non_text_parts_of_the_final_message() {
    let mut task = image_task(None);
    task.messages = vec![
        Message { role: Some(MessageRole::User), parts: vec![MessagePart::Text("ignored".into())] },
        Message {
            role: Some(MessageRole::User),
            parts: vec![
                MessagePart::Text("a ".into()),
                MessagePart::ImageObject { content_url: "https://img.example/z.png".into() },
                MessagePart::Text("harbour".into()),
            ],
        },
    ];
    let request = build_image_request(&task).unwrap();
    assert_eq!(request.prompt, "a harbour");
}

#[test]
fn inline_image_results_are_rejected() {
    let response = ImageResponse { data: vec![ImageResult::Inline { data: "AAAA".into() }] };
    assert_eq!(image_output(&response).unwrap_err(), Error::UnexpectedImageType);
    let ok = ImageResponse { data: vec![ImageResult::Url { url: "https://i.example/a.png".into() }] };
    let output = image_output(&ok).unwrap();
    assert_eq!(output.kind, OutputKind::Url);
    assert_eq!(output.media_type.as_deref(), Some("image/png"));
}

#[test]
fn provider_error_messages_carry_status_and_body() {
    let e = Error::Provider { status: 404, body: "no such model".into() };
    assert_eq!(e.message(), "OpenAI responses API returned 404: no such model");
    let e = Error::ProviderAfterRetry { status: 502, body: "bad gateway".into() };
    assert_eq!(e.message(), "OpenAI responses API returned 502 after vision retry: bad gateway");
    let e = Error::UnsupportedImageSize { width: 1024, height: 1792 };
    assert_eq!(e.message(), "Unsupported image size `1024x1792`");
    let e = Error::UnsupportedAttachments { model_id: "openai/gpt-4".into() };
    assert!(e.message().contains("openai/gpt-4"));
    assert!(e.message().contains("remove attachments"));
}

#[test]
fn trim_removes_surrounding_whitespace_only() {
    assert_eq!(str_trim("  HELLO\n\t "), "HELLO");
    assert_eq!(str_trim("a b"), "a b");
    assert_eq!(str_trim(" \n "), "");
    assert_eq!(str_trim(""), "");
}

#[test]
fn join_places_the_separator_between_elements() {
    let parts = vec!["a".to_string(), "b".to_string(), "c".to_string()];
    assert_eq!(join_strings(&parts, "\n"), "a\nb\nc");
    assert_eq!(join_strings(&vec!["x".to_string()], "\n\n"), "x");
    assert_eq!(join_strings(&Vec::<String>::new(), ", "), "");
}

#[test]
fn substring_and_case_insensitive_checks() {
    assert!(str_contains("Invalid input: context stuffing", "context stuffing"));
    assert!(!str_contains("Invalid input", "context stuffing"));
    assert!(str_contains("abc", ""));
    assert!(str_eq_ignore_case("Application/PDF", "application/pdf"));
    assert!(!str_eq_ignore_case("application/pdf", "application/pd"));
}

#[test]
fn attachment_nodes_carry_their_identity() {
    let file = File::new("notes.txt".into(), "notes.txt".into());
    let attachment = InstructionAttachment::new("notes".into(), file);
    assert_eq!(attachment.alias, "notes");
    assert_eq!(attachment.node_type(), NodeType::InstructionAttachment);
    let id = attachment.node_id();
    assert_eq!(&id.nick, b"iat");
    assert_eq!(id.uid, 0);
}
