use models_openai::chat::{build_chat_request, extract_chat_text, ChatChoice, ChatContentPart, ChatMessage, ChatResponse};
use models_openai::catalog::descriptor_for;
use models_openai::responses::{
    messages_to_response_input, ResponseContent, WireRole,
};
use models_openai::schema::{Message, MessagePart, MessageRole, ModelTask, ModelTaskKind, Real32};

fn message(role: Option<MessageRole>, parts: Vec<MessagePart>) -> Message {
    Message { role, parts }
}

fn text(t: &str) -> MessagePart {
    MessagePart::Text(t.to_string())
}

fn four_role_conversation() -> Vec<Message> {
    vec![
        message(Some(MessageRole::System), vec![text("one")]),
        message(Some(MessageRole::User), vec![text("two")]),
        message(Some(MessageRole::Model), vec![text("three")]),
        message(Some(MessageRole::User), vec![text("four")]),
    ]
}

#[test]
fn responses_input_preserves_roles_in_order() {
    let input = messages_to_response_input(&four_role_conversation());
    assert_eq!(input.len(), 4);
    let roles: Vec<WireRole> = input.iter().map(|m| m.role).collect();
    assert_eq!(
        roles,
        vec![WireRole::System, WireRole::User, WireRole::Assistant, WireRole::User],
    );
}

#[test]
fn responses_input_types_blocks_by_role() {
    let input = messages_to_response_input(&four_role_conversation());
    match &input[0].content[0] {
        ResponseContent::InputText { text } => assert_eq!(text, "one"),
        other => panic!("system text must be an input-text block, got {:?}", other),
    }
    match &input[2].content[0] {
        ResponseContent::OutputText { text } => assert_eq!(text, "three"),
        other => panic!("assistant text must be an output-text block, got {:?}", other),
    }
}

#[test]
fn responses_input_keeps_image_urls_and_drops_other_parts() {
    let messages = vec![message(
        Some(MessageRole::User),
        vec![
            text("look:"),
            MessagePart::ImageObject { content_url: "https://img.example/x.png".into() },
            MessagePart::AudioObject { content_url: "https://a.example/x.mp3".into() },
        ],
    )];
    let input = messages_to_response_input(&messages);
    assert_eq!(input[0].content.len(), 2);
    match &input[0].content[1] {
        ResponseContent::InputImage { file_id, image_url } => {
            assert!(file_id.is_none());
            assert_eq!(image_url.as_deref(), Some("https://img.example/x.png"));
        }
        other => panic!("expected an input-image block, got {:?}", other),
    }
}

#[test]
fn chat_translation_preserves_roles_in_order() {
    let model = descriptor_for("gpt-4-0613".into());
    let task = ModelTask {
        kind: ModelTaskKind::MessageGeneration,
        messages: four_role_conversation(),
        attachments: None,
        dry_run: false,
        temperature: Some(Real32 { bits: 7 }),
        top_p: Some(Real32 { bits: 9 }),
        repeat_penalty: Some(Real32 { bits: 11 }),
        seed: Some(-3),
        max_tokens: Some(64),
        stop: Some("STOP".into()),
        image_size: None,
        image_quality: None,
        image_style: None,
    };
    let request = build_chat_request(&model, &task);
    assert_eq!(request.model, "gpt-4-0613");
    assert_eq!(request.messages.len(), 4);
    assert!(matches!(request.messages[0], ChatMessage::System { .. }));
    assert!(matches!(request.messages[1], ChatMessage::User { .. }));
    assert!(matches!(request.messages[2], ChatMessage::Assistant { .. }));
    assert!(matches!(request.messages[3], ChatMessage::User { .. }));
    assert_eq!(request.temperature, Some(Real32 { bits: 7 }));
    assert_eq!(request.top_p, Some(Real32 { bits: 9 }));
    assert_eq!(request.presence_penalty, Some(Real32 { bits: 11 }));
    assert_eq!(request.seed, Some(-3));
    assert_eq!(request.max_completion_tokens, Some(64));
    assert_eq!(request.stop.as_deref(), Some("STOP"));
}

#[test]
fn chat_system_parts_join_with_a_blank_line() {
    let model = descriptor_for("gpt-4-0613".into());
    let mut task = ModelTask {
        kind: ModelTaskKind::MessageGeneration,
        messages: vec![message(
            Some(MessageRole::System),
            vec![
                text("first"),
                MessagePart::ImageObject { content_url: "https://img.example/x.png".into() },
                text("second"),
            ],
        )],
        attachments: None,
        dry_run: false,
        temperature: None,
        top_p: None,
        repeat_penalty: None,
        seed: None,
        max_tokens: None,
        stop: None,
        image_size: None,
        image_quality: None,
        image_style: None,
    };
    let request = build_chat_request(&model, &task);
    match &request.messages[0] {
        ChatMessage::System { content } => assert_eq!(content, "first\n\nsecond"),
        other => panic!("expected a system message, got {:?}", other),
    }
    // Assistant parts are concatenated without a separator.
    task.messages = vec![message(Some(MessageRole::Model), vec![text("a"), text("b")])];
    let request = build_chat_request(&model, &task);
    match &request.messages[0] {
        ChatMessage::Assistant { content } => assert_eq!(content, "ab"),
        other => panic!("expected an assistant message, got {:?}", other),
    }
}

#[test]
fn chat_user_parts_keep_text_and_image_urls() {
    let model = descriptor_for("gpt-4-0613".into());
    let task = ModelTask {
        kind: ModelTaskKind::MessageGeneration,
        messages: vec![message(
            None,
            vec![
                text("see"),
                MessagePart::ImageObject { content_url: "https://img.example/y.png".into() },
                MessagePart::VideoObject { content_url: "https://v.example/y.mp4".into() },
            ],
        )],
        attachments: None,
        dry_run: false,
        temperature: None,
        top_p: None,
        repeat_penalty: None,
        seed: None,
        max_tokens: None,
        stop: None,
        image_size: None,
        image_quality: None,
        image_style: None,
    };
    let request = build_chat_request(&model, &task);
    // A message without a role is treated as a user message.
    match &request.messages[0] {
        ChatMessage::User { content } => {
            assert_eq!(content.len(), 2);
            assert!(matches!(&content[0], ChatContentPart::Text { text } if text == "see"));
            assert!(matches!(
                &content[1],
                ChatContentPart::ImageUrl { url } if url == "https://img.example/y.png"
            ));
        }
        other => panic!("expected a user message, got {:?}", other),
    }
}

#[test]
fn chat_text_comes_from_the_last_choice() {
    let response = ChatResponse {
        choices: vec![
            ChatChoice { content: Some("a".into()) },
            ChatChoice { content: Some("b".into()) },
        ],
    };
    assert_eq!(extract_chat_text(&response), "b");
    let empty = ChatResponse { choices: vec![] };
    assert_eq!(extract_chat_text(&empty), "");
    let none = ChatResponse { choices: vec![ChatChoice { content: None }] };
    assert_eq!(extract_chat_text(&none), "");
}
