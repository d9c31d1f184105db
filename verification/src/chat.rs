//! The simple chat-completion request shape, used for tasks without
//! attachments.
//!
//! System and assistant messages become one text blob each (non-text parts
//! are dropped); user messages become ordered content parts where text
//! stays text and image references become image-URL parts.  Generation
//! parameters map one-to-one onto the chat endpoint's fields.

#![verifier::loop_isolation(false)]

use vstd::prelude::*;

use crate::model::OpenAIModel;
use crate::responses::part_kept;
use crate::schema::{Message, MessagePart, MessageRole, ModelTask, Real32};
use crate::text::{join_strings, joined};

verus! {

/// One content part of a user chat message.  An image part is sent with
/// its detail level fixed to `auto`.
#[derive(Clone, Debug)]
pub enum ChatContentPart {
    Text { text: String },
    ImageUrl { url: String },
}

/// One chat message, shaped by its role.
#[derive(Clone, Debug)]
pub enum ChatMessage {
    System { content: String },
    User { content: Vec<ChatContentPart> },
    Assistant { content: String },
}

/// The body of a chat-completion request.
#[derive(Clone, Debug)]
pub struct ChatRequest {
    pub model: String,
    pub messages: Vec<ChatMessage>,
    pub presence_penalty: Option<Real32>,
    pub temperature: Option<Real32>,
    pub seed: Option<i64>,
    pub max_completion_tokens: Option<u32>,
    pub top_p: Option<Real32>,
    pub stop: Option<String>,
}

/// The views of the text parts of a message, in order.
pub open spec fn text_views(parts: Seq<MessagePart>) -> Seq<Seq<char>>
    decreases parts.len(),
{
    if parts.len() == 0 {
        Seq::empty()
    } else {
        text_views(parts.drop_last()) + (match parts.last() {
            MessagePart::Text(t) => seq![t@],
            _ => Seq::empty(),
        })
    }
}

/// `c` is the chat translation of user-message part `p`.
pub open spec fn is_chat_part_translation(p: MessagePart, c: ChatContentPart) -> bool {
    match p {
        MessagePart::Text(t) => c matches ChatContentPart::Text { text } && text@ == t@,
        MessagePart::ImageObject { content_url } => {
            c matches ChatContentPart::ImageUrl { url } && url@ == content_url@
        },
        _ => false,
    }
}

/// `c` is the chat translation of message `m`: a system message's text
/// parts joined with a blank line, a user message's kept parts in order,
/// an assistant message's text parts concatenated.
pub open spec fn is_chat_message_translation(m: Message, c: ChatMessage) -> bool {
    match m.spec_effective_role() {
        MessageRole::System => c matches ChatMessage::System { content } && content@ == joined(
            text_views(m.parts@),
            "\n\n"@,
        ),
        MessageRole::User => {
            let kept = m.parts@.filter(|p: MessagePart| part_kept(p));
            c matches ChatMessage::User { content } && content@.len() == kept.len() && (forall|
                i: int,
            |
                0 <= i < kept.len() ==> is_chat_part_translation(
                    kept[i],
                    #[trigger] content@[i],
                ))
        },
        MessageRole::Model => c matches ChatMessage::Assistant { content } && content@ == joined(
            text_views(m.parts@),
            ""@,
        ),
    }
}

/// Collects the text parts of a message.
pub fn collect_texts(parts: &Vec<MessagePart>) -> (r: Vec<String>)
    ensures
        r.deep_view() == text_views(parts@),
{
    let mut r: Vec<String> = Vec::new();
    proof {
        assert(r.deep_view() =~~= text_views(parts@.take(0)));
    }
    let mut i: usize = 0;
    while i < parts.len()
        invariant
            i <= parts@.len(),
            r.deep_view() == text_views(parts@.take(i as int)),
        decreases parts@.len() - i,
    {
        proof {
            let t = parts@.take(i + 1);
            assert(t.drop_last() =~= parts@.take(i as int));
            assert(t.last() == parts@[i as int]);
        }
        let ghost pre = r.deep_view();
        match &parts[i] {
            MessagePart::Text(t) => {
                r.push(t.clone());
                proof {
                    assert(r.deep_view() =~~= pre.push(t@));
                    assert(r.deep_view() =~~= text_views(parts@.take(i + 1)));
                }
            },
            _ => {
                proof {
                    assert(r.deep_view() =~~= text_views(parts@.take(i + 1)));
                }
            },
        }
        i += 1;
    }
    proof {
        assert(parts@.take(parts@.len() as int) =~= parts@);
    }
    r
}

proof fn lemma_filter_push_part(s: Seq<MessagePart>, pred: spec_fn(MessagePart) -> bool, x: MessagePart)
    ensures
        s.push(x).filter(pred) == if pred(x) {
            s.filter(pred).push(x)
        } else {
            s.filter(pred)
        },
{
    reveal(Seq::filter);
    assert(s.push(x).drop_last() =~= s);
    assert(s.push(x).last() == x);
}

/// Translates the parts of a user message, dropping the kinds the chat
/// endpoint does not take.
fn translate_user_parts(parts: &Vec<MessagePart>) -> (r: Vec<ChatContentPart>)
    ensures
        r@.len() == parts@.filter(|p: MessagePart| part_kept(p)).len(),
        forall|i: int|
            0 <= i < r@.len() ==> is_chat_part_translation(
                parts@.filter(|p: MessagePart| part_kept(p))[i],
                #[trigger] r@[i],
            ),
{
    let ghost pred = |p: MessagePart| part_kept(p);
    proof {
        reveal(Seq::filter);
        assert(parts@.take(0) =~= Seq::<MessagePart>::empty());
    }
    let mut r: Vec<ChatContentPart> = Vec::new();
    let mut i: usize = 0;
    while i < parts.len()
        invariant
            i <= parts@.len(),
            r@.len() == parts@.take(i as int).filter(pred).len(),
            forall|k: int|
                0 <= k < r@.len() ==> is_chat_part_translation(
                    parts@.take(i as int).filter(pred)[k],
                    #[trigger] r@[k],
                ),
        decreases parts@.len() - i,
    {
        proof {
            assert(parts@.take(i + 1) =~= parts@.take(i as int).push(parts@[i as int]));
            lemma_filter_push_part(parts@.take(i as int), pred, parts@[i as int]);
        }
        match &parts[i] {
            MessagePart::Text(t) => {
                r.push(ChatContentPart::Text { text: t.clone() });
            },
            MessagePart::ImageObject { content_url } => {
                r.push(ChatContentPart::ImageUrl { url: content_url.clone() });
            },
            _ => {},
        }
        i += 1;
    }
    proof {
        assert(parts@.take(parts@.len() as int) =~= parts@);
    }
    r
}

/// Translates a conversation into chat messages, one per message, in
/// order, each shaped by its role.
pub fn chat_messages(messages: &Vec<Message>) -> (r: Vec<ChatMessage>)
    ensures
        r@.len() == messages@.len(),
        forall|i: int|
            0 <= i < messages@.len() ==> is_chat_message_translation(
                messages@[i],
                #[trigger] r@[i],
            ),
{
    let mut r: Vec<ChatMessage> = Vec::new();
    let mut i: usize = 0;
    while i < messages.len()
        invariant
            i <= messages@.len(),
            r@.len() == i,
            forall|k: int|
                0 <= k < i ==> is_chat_message_translation(messages@[k], #[trigger] r@[k]),
        decreases messages@.len() - i,
    {
        let message = &messages[i];
        match message.effective_role() {
            MessageRole::System => {
                let texts = collect_texts(&message.parts);
                let content = join_strings(&texts, "\n\n");
                r.push(ChatMessage::System { content });
            },
            MessageRole::User => {
                let content = translate_user_parts(&message.parts);
                r.push(ChatMessage::User { content });
            },
            MessageRole::Model => {
                let texts = collect_texts(&message.parts);
                let content = join_strings(&texts, "");
                r.push(ChatMessage::Assistant { content });
            },
        }
        i += 1;
    }
    r
}

/// `r` is the chat-completion request of `task` against `model`: the
/// conversation translated per role, the generation parameters mapped
/// one-to-one onto the endpoint's fields.
pub open spec fn is_chat_request_of(model: OpenAIModel, task: ModelTask, r: ChatRequest) -> bool {
    &&& r.model@ == model.model@
    &&& r.messages@.len() == task.messages@.len()
    &&& forall|i: int|
        0 <= i < task.messages@.len() ==> is_chat_message_translation(
            task.messages@[i],
            #[trigger] r.messages@[i],
        )
    &&& r.presence_penalty == task.repeat_penalty
    &&& r.temperature == task.temperature
    &&& r.top_p == task.top_p
    &&& match task.stop {
        Some(st) => r.stop matches Some(s2) && s2@ == st@,
        None => r.stop is None,
    }
    &&& match task.seed {
        Some(s) => r.seed == Some(s as i64),
        None => r.seed is None,
    }
    &&& match task.max_tokens {
        Some(t) => r.max_completion_tokens == Some(t as u32),
        None => r.max_completion_tokens is None,
    }
}

/// Builds the chat-completion request for a task.
pub fn build_chat_request(model: &OpenAIModel, task: &ModelTask) -> (r: ChatRequest)
    ensures
        is_chat_request_of(*model, *task, r),
{
    ChatRequest {
        model: model.model.clone(),
        messages: chat_messages(&task.messages),
        presence_penalty: task.repeat_penalty,
        temperature: task.temperature,
        seed: match task.seed {
            Some(s) => Some(s as i64),
            None => None,
        },
        max_completion_tokens: match task.max_tokens {
            Some(t) => Some(t as u32),
            None => None,
        },
        top_p: task.top_p,
        stop: match &task.stop {
            Some(st) => Some(st.clone()),
            None => None,
        },
    }
}

/// One choice of a chat-completion success; only the message text is
/// read.
#[derive(Clone, Debug)]
pub struct ChatChoice {
    pub content: Option<String>,
}

/// The body of a chat-completion success.
#[derive(Clone, Debug)]
pub struct ChatResponse {
    pub choices: Vec<ChatChoice>,
}

/// The text a chat-completion success yields: the content of the last
/// choice, or the empty string when there is no choice or no content.
pub open spec fn chat_text_of(r: ChatResponse) -> Seq<char> {
    if r.choices@.len() == 0 {
        Seq::empty()
    } else {
        match r.choices@.last().content {
            Some(c) => c@,
            None => Seq::empty(),
        }
    }
}

/// Extracts the text of a chat-completion success.
pub fn extract_chat_text(response: &ChatResponse) -> (r: String)
    ensures
        r@ == chat_text_of(*response),
{
    if response.choices.len() == 0 {
        String::new()
    } else {
        match &response.choices[response.choices.len() - 1].content {
            Some(c) => c.clone(),
            None => String::new(),
        }
    }
}

} // verus!
