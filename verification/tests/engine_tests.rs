use models_openai::catalog::descriptor_for;
use models_openai::engine::{Action, Event, HttpFailure, Phase};
use models_openai::error::Error;
use models_openai::image::{ImageQuality, ImageResponse, ImageResult, ImageSize, ImageStyle};
use models_openai::responses::{
    ResponseOutput, ResponseOutputContent, ResponsesResponse, WireRole,
};
use models_openai::schema::{
    File, InstructionAttachment, Message, MessagePart, MessageRole, ModelTask, ModelTaskKind,
    OutputKind,
};

fn message(role: MessageRole, text: &str) -> Message {
    Message { role: Some(role), parts: vec![MessagePart::Text(text.to_string())] }
}

fn base_task(kind: ModelTaskKind) -> ModelTask {
    ModelTask {
        kind,
        messages: vec![
            message(MessageRole::System, "Be terse."),
            message(MessageRole::User, "Say HELLO."),
        ],
        attachments: None,
        dry_run: false,
        temperature: None,
        top_p: None,
        repeat_penalty: None,
        seed: None,
        max_tokens: None,
        stop: None,
        image_size: None,
        image_quality: None,
        image_style: None,
    }
}

fn image_attachment(alias: &str, content: Option<&str>) -> InstructionAttachment {
    let mut file = File::new("scan.png".into(), "scan.png".into());
    file.media_type = Some("image/png".into());
    file.content = content.map(|c| c.to_string());
    InstructionAttachment::new(alias.into(), file)
}

fn failure(status: u16, body: &str) -> HttpFailure {
    HttpFailure { status, body: body.to_string() }
}

#[test]
fn dry_run_with_attachments_yields_empty_output_without_network() {
    let model = descriptor_for("gpt-5-nano".into());
    let mut task = base_task(ModelTaskKind::MessageGeneration);
    task.attachments = Some(vec![image_attachment("scan", Some("abc"))]);
    task.dry_run = true;
    let (engine, action) = model.perform_task(&task, true);
    match action {
        Action::Finish(o) => {
            assert_eq!(o.kind, OutputKind::Text);
            assert_eq!(o.content, "");
            assert!(o.media_type.is_none());
        }
        other => panic!("dry run must finish at once, got {:?}", kind_of(&other)),
    }
    assert!(matches!(engine.phase, Phase::Finished));
}

#[test]
fn dry_run_chat_and_image_yield_empty_output() {
    let model = descriptor_for("gpt-4-0613".into());
    let mut task = base_task(ModelTaskKind::MessageGeneration);
    task.dry_run = true;
    let (_, action) = model.perform_task(&task, false);
    assert!(matches!(action, Action::Finish(_)));

    let image_model = descriptor_for("dall-e-3".into());
    let mut task = base_task(ModelTaskKind::ImageGeneration);
    task.dry_run = true;
    task.image_size = Some((1024, 1024));
    let (_, action) = image_model.perform_task(&task, false);
    assert!(matches!(action, Action::Finish(_)));
}

#[test]
fn attachments_on_text_only_model_fail_before_any_transfer() {
    let model = descriptor_for("gpt-4-0613".into());
    let mut task = base_task(ModelTaskKind::MessageGeneration);
    task.attachments = Some(vec![image_attachment("scan", Some("abc"))]);
    let (_, action) = model.perform_task(&task, true);
    match action {
        Action::Fail(Error::UnsupportedAttachments { model_id }) => {
            assert_eq!(model_id, "openai/gpt-4-0613");
        }
        other => panic!("expected a capability error, got {:?}", kind_of(&other)),
    }
}

#[test]
fn generation_without_credential_fails() {
    let model = descriptor_for("gpt-4-0613".into());
    let task = base_task(ModelTaskKind::MessageGeneration);
    let (_, action) = model.perform_task(&task, false);
    assert!(matches!(action, Action::Fail(Error::MissingCredential)));
}

#[test]
fn total_upload_failure_is_fatal_and_sends_no_rich_request() {
    let model = descriptor_for("gpt-5-nano".into());
    let mut task = base_task(ModelTaskKind::MessageGeneration);
    task.attachments = Some(
        vec![image_attachment("one", Some("a")), image_attachment("two", Some("b"))],
    );
    let (mut engine, action) = model.perform_task(&task, true);
    assert!(matches!(action, Action::Upload));
    let action = engine.on_event(Event::UploadDone(None));
    assert!(matches!(action, Action::Upload));
    let action = engine.on_event(Event::UploadDone(None));
    assert!(
        matches!(action, Action::Fail(Error::NoUploadsSucceeded)),
        "all attempted uploads failed, the task must fail without a rich request"
    );
    assert!(matches!(engine.phase, Phase::Finished));
}

#[test]
fn extraction_failures_alone_are_a_total_failure() {
    let model = descriptor_for("gpt-5-nano".into());
    let mut task = base_task(ModelTaskKind::MessageGeneration);
    task.attachments = Some(vec![image_attachment("one", None)]);
    let (engine, action) = model.perform_task(&task, true);
    assert!(matches!(action, Action::Fail(Error::NoUploadsSucceeded)));
    assert!(matches!(engine.phase, Phase::Finished));
}

#[test]
fn partial_upload_failure_proceeds_with_the_successes() {
    let model = descriptor_for("gpt-5-nano".into());
    let mut task = base_task(ModelTaskKind::MessageGeneration);
    task.attachments = Some(
        vec![image_attachment("one", Some("a")), image_attachment("two", Some("b"))],
    );
    let (mut engine, action) = model.perform_task(&task, true);
    assert!(matches!(action, Action::Upload));
    let action = engine.on_event(Event::UploadDone(None));
    assert!(matches!(action, Action::Upload));
    let action = engine.on_event(Event::UploadDone(Some("file-2".into())));
    assert!(matches!(action, Action::SendResponses));
    match &engine.phase {
        Phase::AwaitingResponses { request, retried } => {
            assert!(!*retried);
            assert_eq!(request.model, "gpt-5-nano");
            // The succeeding upload was spliced into the last user message.
            let last_user = request
                .input
                .iter()
                .rev()
                .find(|m| m.role == WireRole::User)
                .expect("a user message should exist");
            assert_eq!(last_user.content.len(), 3);
        }
        other => panic!("expected the rich request to be pending, got {:?}", phase_of(other)),
    }
}

#[test]
fn uploads_splice_into_new_user_message_when_none_exists() {
    let model = descriptor_for("gpt-5-nano".into());
    let mut task = base_task(ModelTaskKind::MessageGeneration);
    task.messages = vec![message(MessageRole::System, "Be terse.")];
    task.attachments = Some(vec![image_attachment("one", Some("a"))]);
    let (mut engine, _) = model.perform_task(&task, true);
    let action = engine.on_event(Event::UploadDone(Some("file-1".into())));
    assert!(matches!(action, Action::SendResponses));
    match &engine.phase {
        Phase::AwaitingResponses { request, .. } => {
            assert_eq!(request.input.len(), 2);
            assert_eq!(request.input[1].role, WireRole::User);
            assert_eq!(request.input[1].content.len(), 2);
        }
        other => panic!("expected the rich request to be pending, got {:?}", phase_of(other)),
    }
}

fn start_rich_request(model_name: &str) -> models_openai::engine::Engine {
    let model = descriptor_for(model_name.into());
    let mut task = base_task(ModelTaskKind::MessageGeneration);
    task.attachments = Some(vec![image_attachment("scan", Some("abc"))]);
    let (mut engine, action) = model.perform_task(&task, true);
    assert!(matches!(action, Action::Upload));
    let action = engine.on_event(Event::UploadDone(Some("file-1".into())));
    assert!(matches!(action, Action::SendResponses));
    engine
}

#[test]
fn incompatibility_error_retries_once_against_the_substitute() {
    let mut engine = start_rich_request("gpt-5-nano");
    let action = engine.on_event(Event::ResponsesDone(Err(failure(
        400,
        "This model does not support image inputs for this request",
    ))));
    assert!(matches!(action, Action::SendResponses));
    match &engine.phase {
        Phase::AwaitingResponses { request, retried } => {
            assert!(*retried);
            assert_eq!(request.model, "gpt-4.1-mini");
        }
        other => panic!("expected the retry to be pending, got {:?}", phase_of(other)),
    }
    // A second failure propagates the retry's status and body verbatim.
    let action = engine.on_event(Event::ResponsesDone(Err(failure(502, "still refused"))));
    match action {
        Action::Fail(Error::ProviderAfterRetry { status, body }) => {
            assert_eq!(status, 502);
            assert_eq!(body, "still refused");
        }
        other => panic!("expected the retry failure verbatim, got {:?}", kind_of(&other)),
    }
}

#[test]
fn context_stuffing_signature_also_triggers_the_fallback() {
    let mut engine = start_rich_request("gpt-4.1-mini");
    let action = engine.on_event(Event::ResponsesDone(Err(failure(
        400,
        "Invalid input: detected context stuffing",
    ))));
    assert!(matches!(action, Action::SendResponses));
    match &engine.phase {
        Phase::AwaitingResponses { request, .. } => assert_eq!(request.model, "gpt-4o-mini"),
        other => panic!("expected the retry to be pending, got {:?}", phase_of(other)),
    }
}

#[test]
fn other_provider_errors_are_surfaced_verbatim_without_retry() {
    let mut engine = start_rich_request("gpt-5-nano");
    let action = engine.on_event(Event::ResponsesDone(Err(failure(429, "rate limited"))));
    match action {
        Action::Fail(Error::Provider { status, body }) => {
            assert_eq!(status, 429);
            assert_eq!(body, "rate limited");
        }
        other => panic!("expected the provider error verbatim, got {:?}", kind_of(&other)),
    }
}

#[test]
fn other_model_families_never_retry() {
    let mut engine = start_rich_request("gpt-4o-2024-08-06");
    let action = engine.on_event(Event::ResponsesDone(Err(failure(
        400,
        "This model does not support image inputs",
    ))));
    assert!(matches!(action, Action::Fail(Error::Provider { .. })));
}

#[test]
fn responses_output_text_is_joined_and_trimmed() {
    let mut engine = start_rich_request("gpt-5-nano");
    let response = ResponsesResponse {
        output: vec![
            ResponseOutput {
                content: vec![
                    ResponseOutputContent::OutputText { text: "  HELLO".into() },
                    ResponseOutputContent::Other,
                ],
            },
            ResponseOutput {
                content: vec![ResponseOutputContent::SummaryText { text: "WORLD  ".into() }],
            },
        ],
    };
    let action = engine.on_event(Event::ResponsesDone(Ok(response)));
    match action {
        Action::Finish(o) => assert_eq!(o.content, "HELLO\nWORLD"),
        other => panic!("expected a finished task, got {:?}", kind_of(&other)),
    }
}

#[test]
fn responses_without_usable_text_fail() {
    let mut engine = start_rich_request("gpt-5-nano");
    let response = ResponsesResponse {
        output: vec![ResponseOutput { content: vec![ResponseOutputContent::Other] }],
    };
    let action = engine.on_event(Event::ResponsesDone(Ok(response)));
    assert!(matches!(action, Action::Fail(Error::EmptyOutputText)));
}

#[test]
fn chat_task_sends_the_translated_conversation() {
    let model = descriptor_for("gpt-4-0613".into());
    let task = base_task(ModelTaskKind::MessageGeneration);
    let (engine, action) = model.perform_task(&task, true);
    assert!(matches!(action, Action::SendChat));
    match &engine.phase {
        Phase::AwaitingChat { request } => {
            assert_eq!(request.model, "gpt-4-0613");
            assert_eq!(request.messages.len(), 2);
        }
        other => panic!("expected the chat request to be pending, got {:?}", phase_of(other)),
    }
}

#[test]
fn chat_success_returns_the_last_choice_text() {
    let model = descriptor_for("gpt-4-0613".into());
    let task = base_task(ModelTaskKind::MessageGeneration);
    let (mut engine, _) = model.perform_task(&task, true);
    let response = models_openai::chat::ChatResponse {
        choices: vec![
            models_openai::chat::ChatChoice { content: Some("first".into()) },
            models_openai::chat::ChatChoice { content: Some("HELLO".into()) },
        ],
    };
    let action = engine.on_event(Event::ChatDone(Ok(response)));
    match action {
        Action::Finish(o) => {
            assert_eq!(o.content, "HELLO");
            assert_eq!(o.kind, OutputKind::Text);
        }
        other => panic!("expected a finished task, got {:?}", kind_of(&other)),
    }
}

#[test]
fn image_task_maps_the_enumerated_options() {
    let model = descriptor_for("dall-e-3".into());
    let mut task = base_task(ModelTaskKind::ImageGeneration);
    task.messages = vec![message(MessageRole::User, "A quiet harbour")];
    task.image_size = Some((1024, 1792));
    task.image_quality = Some("HD".into());
    task.image_style = Some("Vivid".into());
    let (engine, action) = model.perform_task(&task, true);
    assert!(matches!(action, Action::SendImage));
    match &engine.phase {
        Phase::AwaitingImage { request } => {
            assert_eq!(request.prompt, "A quiet harbour");
            assert_eq!(request.size, Some(ImageSize::S1024x1792));
            assert_eq!(request.quality, Some(ImageQuality::HighDefinition));
            assert_eq!(request.style, Some(ImageStyle::Vivid));
        }
        other => panic!("expected the image request to be pending, got {:?}", phase_of(other)),
    }
}

#[test]
fn image_success_returns_the_first_url() {
    let model = descriptor_for("dall-e-3".into());
    let mut task = base_task(ModelTaskKind::ImageGeneration);
    task.image_size = Some((512, 512));
    let (mut engine, _) = model.perform_task(&task, true);
    let response = ImageResponse {
        data: vec![ImageResult::Url { url: "https://img.example/1.png".into() }],
    };
    let action = engine.on_event(Event::ImageDone(Ok(response)));
    match action {
        Action::Finish(o) => {
            assert_eq!(o.kind, OutputKind::Url);
            assert_eq!(o.media_type.as_deref(), Some("image/png"));
            assert_eq!(o.content, "https://img.example/1.png");
        }
        other => panic!("expected a finished task, got {:?}", kind_of(&other)),
    }
}

#[test]
fn empty_image_data_fails() {
    let model = descriptor_for("dall-e-3".into());
    let task = base_task(ModelTaskKind::ImageGeneration);
    let (mut engine, _) = model.perform_task(&task, true);
    let action = engine.on_event(Event::ImageDone(Ok(ImageResponse { data: vec![] })));
    assert!(matches!(action, Action::Fail(Error::EmptyImageData)));
}

#[test]
fn transport_failures_surface_their_detail() {
    let model = descriptor_for("gpt-4-0613".into());
    let task = base_task(ModelTaskKind::MessageGeneration);
    let (mut engine, _) = model.perform_task(&task, true);
    let action = engine.on_event(Event::ChatDone(Err("connection reset".into())));
    match action {
        Action::Fail(Error::RequestFailed { detail }) => assert_eq!(detail, "connection reset"),
        other => panic!("expected the transport detail, got {:?}", kind_of(&other)),
    }
}

fn kind_of(a: &Action) -> &'static str {
    match a {
        Action::Upload => "Upload",
        Action::SendChat => "SendChat",
        Action::SendResponses => "SendResponses",
        Action::SendImage => "SendImage",
        Action::Finish(_) => "Finish",
        Action::Fail(_) => "Fail",
    }
}

fn phase_of(p: &Phase) -> &'static str {
    match p {
        Phase::Uploading { .. } => "Uploading",
        Phase::AwaitingResponses { .. } => "AwaitingResponses",
        Phase::AwaitingChat { .. } => "AwaitingChat",
        Phase::AwaitingImage { .. } => "AwaitingImage",
        Phase::Finished => "Finished",
    }
}
