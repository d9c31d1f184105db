//! The abstract task schema consumed by the adapter.
//!
//! These are the caller-facing types: a task is an ordered conversation of
//! messages, each made of typed parts, with optional binary attachments and
//! generation parameters.  The adapter reads them and never mutates them.

use vstd::prelude::*;

verus! {

/// What a task asks the model to produce.
#[derive(Clone, Copy, Debug, PartialEq, Eq, Structural)]
pub enum ModelTaskKind {
    MessageGeneration,
    ImageGeneration,
}

/// The conversational role of a message.
#[derive(Clone, Copy, Debug, PartialEq, Eq, Structural)]
pub enum MessageRole {
    System,
    User,
    Model,
}

/// One typed piece of a message.
#[derive(Clone, Debug)]
pub enum MessagePart {
    /// Plain text.
    Text(String),
    /// A reference to an image by URL.
    ImageObject { content_url: String },
    /// A reference to an audio clip by URL.
    AudioObject { content_url: String },
    /// A reference to a video by URL.
    VideoObject { content_url: String },
}

/// One message of a conversation, in order.
#[derive(Clone, Debug)]
pub struct Message {
    /// The role; a message without one is treated as a user message.
    pub role: Option<MessageRole>,
    /// The ordered parts of the message.
    pub parts: Vec<MessagePart>,
}

impl Message {
    /// The role this message is serialized under.
    pub open spec fn spec_effective_role(&self) -> MessageRole {
        match self.role {
            Some(r) => r,
            None => MessageRole::User,
        }
    }

    /// The role this message is serialized under.
    pub fn effective_role(&self) -> (r: MessageRole)
        ensures
            r == self.spec_effective_role(),
    {
        match self.role {
            Some(r) => r,
            None => MessageRole::User,
        }
    }
}

/// A file descriptor for an attachment payload.
#[derive(Clone, Debug)]
pub struct File {
    /// The file's name; may be blank.
    pub name: String,
    /// Where the file came from; not read by this crate.
    pub path: String,
    /// The declared media type, if any.
    pub media_type: Option<String>,
    /// Inline content: raw text, or base64 text when the transfer
    /// encoding below says so.
    pub content: Option<String>,
    /// A transfer-encoding hint for `content`; `"base64"` (in any ASCII
    /// case) marks the content as base64-encoded.
    pub transfer_encoding: Option<String>,
}

impl File {
    /// A file with a name and a path and nothing else declared.
    pub fn new(name: String, path: String) -> (r: File)
        ensures
            r.name == name,
            r.path == path,
            r.media_type is None,
            r.content is None,
            r.transfer_encoding is None,
    {
        File { name, path, media_type: None, content: None, transfer_encoding: None }
    }
}

/// The kind of a document node.
#[derive(Clone, Copy, Debug, PartialEq, Eq, Structural)]
pub enum NodeType {
    InstructionAttachment,
}

/// A typed identifier for a document node: a three-letter kind nickname
/// plus the node's unique number.
#[derive(Clone, Copy, Debug, PartialEq, Eq)]
pub struct NodeId {
    /// The kind nickname, three ASCII letters.
    pub nick: [u8; 3],
    /// The node's unique number.
    pub uid: u64,
}

impl NodeId {
    /// Builds an identifier from a nickname and a unique number.
    pub fn new(nick: [u8; 3], uid: u64) -> (r: NodeId)
        ensures
            r.nick == nick,
            r.uid == uid,
    {
        NodeId { nick, uid }
    }
}

/// An attachment that can be provided to an instruction for model context.
#[derive(Clone, Debug)]
pub struct InstructionAttachment {
    /// The identifier for this item.
    pub id: Option<String>,
    /// A short name for referring to the attachment within prompts.
    pub alias: String,
    /// The file to attach.
    pub file: File,
    /// A unique number for this node within a document.
    pub uid: u64,
}

impl InstructionAttachment {
    /// The kind of this node.
    pub fn node_type(&self) -> (r: NodeType)
        ensures
            r == NodeType::InstructionAttachment,
    {
        NodeType::InstructionAttachment
    }

    /// The typed identifier of this node.
    /// The nickname is the ASCII bytes of `"iat"`.
    pub fn node_id(&self) -> (r: NodeId)
        ensures
            r.nick@ == seq![105u8, 97u8, 116u8],
            r.uid == self.uid,
    {
        let nick = [105u8, 97u8, 116u8];
        proof {
            assert(nick@ =~= seq![105u8, 97u8, 116u8]);
        }
        NodeId::new(nick, self.uid)
    }

    /// An attachment with the given alias and file and default metadata.
    pub fn new(alias: String, file: File) -> (r: InstructionAttachment)
        ensures
            r.alias == alias,
            r.file == file,
            r.id is None,
            r.uid == 0,
    {
        InstructionAttachment { id: None, alias, file, uid: 0 }
    }
}

/// A 32-bit real-valued generation parameter, carried as its raw bit
/// pattern.  This crate copies such values into requests verbatim and
/// never interprets them; the harness converts at the boundary.
#[derive(Clone, Copy, Debug, PartialEq, Eq, Structural)]
pub struct Real32 {
    pub bits: u32,
}

/// A unit of work describing a desired generation.
#[derive(Clone, Debug)]
pub struct ModelTask {
    /// Whether the task asks for a message or an image.
    pub kind: ModelTaskKind,
    /// The conversation, in order.
    pub messages: Vec<Message>,
    /// Attachments to make available to the model.
    pub attachments: Option<Vec<InstructionAttachment>>,
    /// When set, the request is validated and constructed but never sent.
    pub dry_run: bool,
    /// Sampling temperature.
    pub temperature: Option<Real32>,
    /// Nucleus-sampling parameter.
    pub top_p: Option<Real32>,
    /// Repetition penalty; mapped to the chat endpoint's presence penalty.
    pub repeat_penalty: Option<Real32>,
    /// Sampling seed.
    pub seed: Option<i32>,
    /// Cap on the size of the generated output.
    pub max_tokens: Option<u16>,
    /// A stop sequence.
    pub stop: Option<String>,
    /// Desired image width and height.
    pub image_size: Option<(u32, u32)>,
    /// Desired image quality keyword.
    pub image_quality: Option<String>,
    /// Desired image style keyword.
    pub image_style: Option<String>,
}

/// Whether a generation result is inline text or a reference by URL.
#[derive(Clone, Copy, Debug, PartialEq, Eq, Structural)]
pub enum OutputKind {
    Text,
    Url,
}

/// The normalized result of a performed task.
#[derive(Clone, Debug)]
pub struct ModelOutput {
    /// How `content` is to be read.
    pub kind: OutputKind,
    /// The media type of the result, when it is not plain text.
    pub media_type: Option<String>,
    /// The generated text, or the URL of the generated object.
    pub content: String,
}

impl ModelOutput {
    /// The well-formed empty output a dry run returns.
    pub fn empty() -> (r: ModelOutput)
        ensures
            r.kind == OutputKind::Text,
            r.media_type is None,
            r.content@ == Seq::<char>::empty(),
    {
        ModelOutput { kind: OutputKind::Text, media_type: None, content: String::new() }
    }

    /// A plain-text output.
    pub fn from_text(text: String) -> (r: ModelOutput)
        ensures
            r.kind == OutputKind::Text,
            r.media_type is None,
            r.content == text,
    {
        ModelOutput { kind: OutputKind::Text, media_type: None, content: text }
    }

    /// An output referring to a generated object by URL.
    pub fn from_url(media_type: String, url: String) -> (r: ModelOutput)
        ensures
            r.kind == OutputKind::Url,
            r.media_type == Some(media_type),
            r.content == url,
    {
        ModelOutput { kind: OutputKind::Url, media_type: Some(media_type), content: url }
    }
}

} // verus!
