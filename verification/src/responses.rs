//! The attachment-capable "responses" request shape.
//!
//! A task's conversation is translated into role-tagged lists of typed
//! content blocks; uploaded attachments are spliced into the last user
//! message; the provider's output items are folded back into one text.
//! This module also holds the capability-fallback compatibility table:
//! the error signature that marks an attachment-limited model family and
//! the substitute model for each family.

#![verifier::loop_isolation(false)]

use vstd::prelude::*;

use crate::schema::{Message, MessagePart, MessageRole, Real32};
use crate::text::{has_substring, joined, str_contains, str_starts_with, str_trim, trimmed};

verus! {

/// A role as the wire protocol tags it.
#[derive(Clone, Copy, Debug, PartialEq, Eq, Structural)]
pub enum WireRole {
    System,
    User,
    Assistant,
}

/// One typed content block of a responses-API message.
#[derive(Clone, Debug)]
pub enum ResponseContent {
    InputText { text: String },
    OutputText { text: String },
    InputFile { file_id: String },
    InputImage { file_id: Option<String>, image_url: Option<String> },
}

/// One role-tagged message of a responses-API request.
#[derive(Clone, Debug)]
pub struct ResponseMessage {
    pub role: WireRole,
    pub content: Vec<ResponseContent>,
}

/// The body of a responses-API request.
#[derive(Clone, Debug)]
pub struct ResponsesRequest {
    pub model: String,
    pub input: Vec<ResponseMessage>,
    pub temperature: Option<Real32>,
    pub top_p: Option<Real32>,
    pub stop: Option<Vec<String>>,
    pub seed: Option<i32>,
    pub max_output_tokens: Option<u16>,
}

/// The wire role a conversational role maps to.
pub open spec fn wire_role_of(r: MessageRole) -> WireRole {
    match r {
        MessageRole::System => WireRole::System,
        MessageRole::User => WireRole::User,
        MessageRole::Model => WireRole::Assistant,
    }
}

/// Whether a part survives translation to the responses shape.
pub open spec fn part_kept(p: MessagePart) -> bool {
    p matches MessagePart::Text(_) || p matches MessagePart::ImageObject { .. }
}

/// `c` is the translation of part `p` under wire role `role`: text becomes
/// an input-text block (an output-text block for the assistant role) and an
/// image reference becomes an input-image block carrying the URL.
pub open spec fn is_part_translation(role: WireRole, p: MessagePart, c: ResponseContent) -> bool {
    match p {
        MessagePart::Text(t) => if role == WireRole::Assistant {
            c matches ResponseContent::OutputText { text } && text@ == t@
        } else {
            c matches ResponseContent::InputText { text } && text@ == t@
        },
        MessagePart::ImageObject { content_url } => {
            c matches ResponseContent::InputImage { file_id: None, image_url: Some(u) } && u@
                == content_url@
        },
        _ => false,
    }
}

/// `rm` is the translation of message `m`: same role, and the kept parts
/// translated in order.
pub open spec fn is_message_translation(m: Message, rm: ResponseMessage) -> bool {
    let kept = m.parts@.filter(|p: MessagePart| part_kept(p));
    &&& rm.role == wire_role_of(m.spec_effective_role())
    &&& rm.content@.len() == kept.len()
    &&& forall|i: int|
        0 <= i < kept.len() ==> is_part_translation(rm.role, kept[i], #[trigger] rm.content@[i])
}

proof fn lemma_filter_push<A>(s: Seq<A>, pred: spec_fn(A) -> bool, x: A)
    ensures
        s.push(x).filter(pred) == if pred(x) {
            s.filter(pred).push(x)
        } else {
            s.filter(pred)
        },
{
    reveal(Seq::filter);
    assert(s.push(x).drop_last() =~= s);
    assert(s.push(x).last() == x);
}

/// Translates the parts of one message under the given wire role,
/// dropping the part kinds the responses API does not take.
fn translate_parts(role: WireRole, parts: &Vec<MessagePart>) -> (r: Vec<ResponseContent>)
    ensures
        r@.len() == parts@.filter(|p: MessagePart| part_kept(p)).len(),
        forall|i: int|
            0 <= i < r@.len() ==> is_part_translation(
                role,
                parts@.filter(|p: MessagePart| part_kept(p))[i],
                #[trigger] r@[i],
            ),
{
    let ghost pred = |p: MessagePart| part_kept(p);
    proof {
        reveal(Seq::filter);
        assert(parts@.take(0) =~= Seq::<MessagePart>::empty());
    }
    let mut r: Vec<ResponseContent> = Vec::new();
    let mut i: usize = 0;
    while i < parts.len()
        invariant
            i <= parts@.len(),
            r@.len() == parts@.take(i as int).filter(pred).len(),
            forall|k: int|
                0 <= k < r@.len() ==> is_part_translation(
                    role,
                    parts@.take(i as int).filter(pred)[k],
                    #[trigger] r@[k],
                ),
        decreases parts@.len() - i,
    {
        proof {
            assert(parts@.take(i + 1) =~= parts@.take(i as int).push(parts@[i as int]));
            lemma_filter_push(parts@.take(i as int), pred, parts@[i as int]);
        }
        match &parts[i] {
            MessagePart::Text(t) => {
                if role == WireRole::Assistant {
                    r.push(ResponseContent::OutputText { text: t.clone() });
                } else {
                    r.push(ResponseContent::InputText { text: t.clone() });
                }
            },
            MessagePart::ImageObject { content_url } => {
                r.push(
                    ResponseContent::InputImage {
                        file_id: None,
                        image_url: Some(content_url.clone()),
                    },
                );
            },
            _ => {},
        }
        i += 1;
    }
    proof {
        assert(parts@.take(parts@.len() as int) =~= parts@);
    }
    r
}

/// Translates a conversation into the responses-API input shape, keeping
/// one entry per message, in order.
pub fn messages_to_response_input(messages: &Vec<Message>) -> (r: Vec<ResponseMessage>)
    ensures
        r@.len() == messages@.len(),
        forall|i: int|
            0 <= i < messages@.len() ==> is_message_translation(messages@[i], #[trigger] r@[i]),
{
    let mut r: Vec<ResponseMessage> = Vec::new();
    let mut i: usize = 0;
    while i < messages.len()
        invariant
            i <= messages@.len(),
            r@.len() == i,
            forall|k: int|
                0 <= k < i ==> is_message_translation(messages@[k], #[trigger] r@[k]),
        decreases messages@.len() - i,
    {
        let role = wire_role_exec(messages[i].effective_role());
        let content = translate_parts(role, &messages[i].parts);
        r.push(ResponseMessage { role, content });
        i += 1;
    }
    r
}

/// The wire role a conversational role maps to.
fn wire_role_exec(r: MessageRole) -> (w: WireRole)
    ensures
        w == wire_role_of(r),
{
    match r {
        MessageRole::System => WireRole::System,
        MessageRole::User => WireRole::User,
        MessageRole::Model => WireRole::Assistant,
    }
}

/// `req` is the responses-API request of `task` against `model`, before
/// any uploaded attachments are spliced in: the conversation translated
/// per role and the supported generation parameters carried over.
pub open spec fn is_responses_request_of(
    model: crate::model::OpenAIModel,
    task: crate::schema::ModelTask,
    req: ResponsesRequest,
) -> bool {
    &&& req.model@ == model.model@
    &&& req.input@.len() == task.messages@.len()
    &&& forall|i: int|
        0 <= i < task.messages@.len() ==> is_message_translation(
            task.messages@[i],
            #[trigger] req.input@[i],
        )
    &&& req.temperature == task.temperature
    &&& req.top_p == task.top_p
    &&& match task.stop {
        Some(st) => req.stop matches Some(v) && v@.len() == 1 && v@[0]@ == st@,
        None => req.stop is None,
    }
    &&& req.seed == task.seed
    &&& req.max_output_tokens == task.max_tokens
}

/// Builds the responses-API request of a task, before splicing uploads.
pub fn build_responses_request(
    model: &crate::model::OpenAIModel,
    task: &crate::schema::ModelTask,
) -> (r: ResponsesRequest)
    ensures
        is_responses_request_of(*model, *task, r),
{
    ResponsesRequest {
        model: model.model.clone(),
        input: messages_to_response_input(&task.messages),
        temperature: task.temperature,
        top_p: task.top_p,
        stop: match &task.stop {
            Some(st) => {
                let mut v: Vec<String> = Vec::new();
                v.push(st.clone());
                Some(v)
            },
            None => None,
        },
        seed: task.seed,
        max_output_tokens: task.max_tokens,
    }
}

/// The index of the last user-role message, or `-1` when there is none.
pub open spec fn last_user_index(ms: Seq<ResponseMessage>) -> int
    decreases ms.len(),
{
    if ms.len() == 0 {
        -1
    } else if ms.last().role == WireRole::User {
        ms.len() - 1
    } else {
        last_user_index(ms.drop_last())
    }
}

proof fn lemma_last_user_at(ms: Seq<ResponseMessage>, i: int)
    requires
        0 <= i < ms.len(),
        ms[i].role == WireRole::User,
        forall|j: int| i < j < ms.len() ==> (#[trigger] ms[j].role) != WireRole::User,
    ensures
        last_user_index(ms) == i,
    decreases ms.len(),
{
    if i < ms.len() - 1 {
        assert(ms.drop_last()[i] == ms[i]);
        lemma_last_user_at(ms.drop_last(), i);
    }
}

proof fn lemma_no_user(ms: Seq<ResponseMessage>)
    requires
        forall|j: int| 0 <= j < ms.len() ==> (#[trigger] ms[j].role) != WireRole::User,
    ensures
        last_user_index(ms) == -1,
    decreases ms.len(),
{
    if ms.len() > 0 {
        lemma_no_user(ms.drop_last());
    }
}

/// `seg` is the flattened content of the uploads, two blocks per upload,
/// in order.
pub open spec fn is_flat_contents(
    ups: Seq<crate::attachments::UploadedAttachment>,
    seg: Seq<ResponseContent>,
) -> bool {
    &&& seg.len() == 2 * ups.len()
    &&& forall|k: int|
        0 <= k < ups.len() ==> crate::attachments::is_contents_of(
            #[trigger] ups[k],
            seg[2 * k],
            seg[2 * k + 1],
        )
}

/// `out` is `input` with the uploads spliced in: their content blocks are
/// appended to the last user-role message, or carried by a new trailing
/// user message when there is none; without uploads nothing changes.
pub open spec fn is_splice(
    input: Seq<ResponseMessage>,
    ups: Seq<crate::attachments::UploadedAttachment>,
    out: Seq<ResponseMessage>,
) -> bool {
    if ups.len() == 0 {
        out == input
    } else if last_user_index(input) >= 0 {
        let lu = last_user_index(input);
        &&& out.len() == input.len()
        &&& forall|j: int| 0 <= j < input.len() && j != lu ==> out[j] == #[trigger] input[j]
        &&& out[lu].role == WireRole::User
        &&& out[lu].content@.len() == input[lu].content@.len() + 2 * ups.len()
        &&& forall|k: int|
            0 <= k < input[lu].content@.len() ==> out[lu].content@[k] == #[trigger] input[lu].content@[k]
        &&& is_flat_contents(ups, out[lu].content@.skip(input[lu].content@.len() as int))
    } else {
        &&& out.len() == input.len() + 1
        &&& forall|j: int| 0 <= j < input.len() ==> out[j] == #[trigger] input[j]
        &&& out.last().role == WireRole::User
        &&& is_flat_contents(ups, out.last().content@)
    }
}

/// Flattens the uploads into their content blocks, in order.
fn flat_contents(uploaded: &Vec<crate::attachments::UploadedAttachment>) -> (r: Vec<ResponseContent>)
    ensures
        is_flat_contents(uploaded@, r@),
{
    let mut r: Vec<ResponseContent> = Vec::new();
    let mut i: usize = 0;
    while i < uploaded.len()
        invariant
            i <= uploaded@.len(),
            r@.len() == 2 * i,
            forall|k: int|
                0 <= k < i ==> crate::attachments::is_contents_of(
                    #[trigger] uploaded@[k],
                    r@[2 * k],
                    r@[2 * k + 1],
                ),
        decreases uploaded@.len() - i,
    {
        let mut pair = uploaded[i].to_contents();
        r.append(&mut pair);
        i += 1;
    }
    r
}

/// Splices the uploads into a translated conversation: appended to the
/// content of the last user-role message, or carried by a synthesized
/// trailing user message when no user message exists.
pub fn splice_uploads(
    input: &mut Vec<ResponseMessage>,
    uploaded: &Vec<crate::attachments::UploadedAttachment>,
)
    ensures
        is_splice(old(input)@, uploaded@, final(input)@),
{
    if uploaded.len() == 0 {
        return ;
    }
    let flat = flat_contents(uploaded);
    let mut i: usize = 0;
    let mut lu: usize = 0;
    let mut has_user = false;
    while i < input.len()
        invariant
            i <= input@.len(),
            !has_user ==> forall|j: int|
                0 <= j < i ==> (#[trigger] input@[j].role) != WireRole::User,
            has_user ==> lu < i && input@[lu as int].role == WireRole::User && (forall|j: int|
                lu < j < i ==> (#[trigger] input@[j].role) != WireRole::User),
        decreases input@.len() - i,
    {
        if input[i].role == WireRole::User {
            lu = i;
            has_user = true;
        }
        i += 1;
    }
    if has_user {
        proof {
            lemma_last_user_at(input@, lu as int);
        }
        let ghost pre = input@;
        let mut m = input.remove(lu);
        let ghost pre_content = m.content@;
        let mut flat_local = flat;
        m.content.append(&mut flat_local);
        input.insert(lu, m);
        proof {
            assert(forall|j: int|
                0 <= j < pre.len() && j != lu ==> input@[j] == #[trigger] pre[j]);
            assert(input@[lu as int].content@.skip(pre[lu as int].content@.len() as int) =~= flat@);
        }
    } else {
        proof {
            lemma_no_user(input@);
        }
        input.push(ResponseMessage { role: WireRole::User, content: flat });
    }
}

/// The error signature after which an attachment-limited model family is
/// retried with a vision-capable substitute: the model belongs to one of
/// the two known families and the error body carries the documented
/// incompatibility phrasing.
pub open spec fn retry_signature(model: Seq<char>, body: Seq<char>) -> bool {
    ("gpt-5"@.is_prefix_of(model) || "gpt-4.1"@.is_prefix_of(model)) && ((has_substring(
        body,
        "Invalid input"@,
    ) && has_substring(body, "context stuffing"@)) || has_substring(
        body,
        "does not support image inputs"@,
    ))
}

/// Decides whether a failed rich request is eligible for the one
/// capability-fallback retry.
pub fn should_retry_with_vision(model: &str, error_body: &str) -> (r: bool)
    ensures
        r == retry_signature(model@, error_body@),
{
    (str_starts_with(model, "gpt-5") || str_starts_with(model, "gpt-4.1")) && ((str_contains(
        error_body,
        "Invalid input",
    ) && str_contains(error_body, "context stuffing")) || str_contains(
        error_body,
        "does not support image inputs",
    ))
}

/// The fixed substitute model for each attachment-limited family.
pub open spec fn vision_substitute(model: Seq<char>) -> Option<Seq<char>> {
    if "gpt-5"@.is_prefix_of(model) {
        Some("gpt-4.1-mini"@)
    } else if "gpt-4.1"@.is_prefix_of(model) {
        Some("gpt-4o-mini"@)
    } else {
        None
    }
}

/// Looks up the vision-capable substitute for an attachment-limited model.
pub fn map_to_vision_model(model: &str) -> (r: Option<String>)
    ensures
        match r {
            Some(s) => vision_substitute(model@) == Some(s@),
            None => vision_substitute(model@) is None,
        },
{
    if str_starts_with(model, "gpt-5") {
        Some("gpt-4.1-mini".to_owned())
    } else if str_starts_with(model, "gpt-4.1") {
        Some("gpt-4o-mini".to_owned())
    } else {
        None
    }
}

/// Whenever the retry signature matches, a substitute model exists: the
/// signature's family prefixes are exactly the keys of the substitution
/// table, so an eligible failure is never left without a fallback.
pub proof fn lemma_retry_has_substitute(model: Seq<char>, body: Seq<char>)
    requires
        retry_signature(model, body),
    ensures
        vision_substitute(model) is Some,
{
}

/// One output item of a responses-API success.
#[derive(Clone, Debug)]
pub struct ResponseOutput {
    pub content: Vec<ResponseOutputContent>,
}

/// One typed content block of an output item.
#[derive(Clone, Debug)]
pub enum ResponseOutputContent {
    OutputText { text: String },
    SummaryText { text: String },
    Other,
}

/// The body of a responses-API success.
#[derive(Clone, Debug)]
pub struct ResponsesResponse {
    pub output: Vec<ResponseOutput>,
}

/// Whether a content block carries usable text.
pub open spec fn is_text_content(c: ResponseOutputContent) -> bool {
    c matches ResponseOutputContent::OutputText { .. } || c
        matches ResponseOutputContent::SummaryText { .. }
}

/// The text of a usable content block.
pub open spec fn content_text(c: ResponseOutputContent) -> Seq<char> {
    match c {
        ResponseOutputContent::OutputText { text } => text@,
        ResponseOutputContent::SummaryText { text } => text@,
        ResponseOutputContent::Other => Seq::empty(),
    }
}

/// The usable text segments of a list of content blocks, in order.
pub open spec fn segments_of_contents(content: Seq<ResponseOutputContent>) -> Seq<Seq<char>>
    decreases content.len(),
{
    if content.len() == 0 {
        Seq::empty()
    } else if is_text_content(content.last()) {
        segments_of_contents(content.drop_last()).push(content_text(content.last()))
    } else {
        segments_of_contents(content.drop_last())
    }
}

/// The usable text segments of one output item, in order.
pub open spec fn segments_of_item(item: ResponseOutput) -> Seq<Seq<char>> {
    segments_of_contents(item.content@)
}

/// The usable text segments of all output items, in order.
pub open spec fn all_segments(out: Seq<ResponseOutput>) -> Seq<Seq<char>>
    decreases out.len(),
{
    if out.len() == 0 {
        Seq::empty()
    } else {
        all_segments(out.drop_last()) + segments_of_item(out.last())
    }
}

/// The text a responses-API success boils down to: every usable segment,
/// joined with a newline, with surrounding whitespace removed.
pub open spec fn extracted_text(out: Seq<ResponseOutput>) -> Seq<char> {
    trimmed(joined(all_segments(out), "\n"@))
}

/// Collects the usable text segments of one output item.
fn item_segments(item: &ResponseOutput, segments: &mut Vec<String>)
    ensures
        final(segments).deep_view() == old(segments).deep_view() + segments_of_item(*item),
{
    let ghost orig = segments.deep_view();
    proof {
        assert(orig + segments_of_contents(item.content@.take(0)) =~~= orig);
    }
    let mut i: usize = 0;
    while i < item.content.len()
        invariant
            i <= item.content@.len(),
            segments.deep_view() == orig + segments_of_contents(item.content@.take(i as int)),
        decreases item.content@.len() - i,
    {
        proof {
            let t = item.content@.take(i + 1);
            assert(t.drop_last() =~= item.content@.take(i as int));
            assert(t.last() == item.content@[i as int]);
        }
        let ghost pre = segments.deep_view();
        match &item.content[i] {
            ResponseOutputContent::OutputText { text } => {
                segments.push(text.clone());
                proof {
                    assert(segments.deep_view() =~~= pre.push(text@));
                    assert(segments_of_contents(item.content@.take(i + 1))
                        == segments_of_contents(item.content@.take(i as int)).push(text@));
                    assert(segments.deep_view() =~~= orig + segments_of_contents(
                        item.content@.take(i + 1),
                    ));
                }
            },
            ResponseOutputContent::SummaryText { text } => {
                segments.push(text.clone());
                proof {
                    assert(segments.deep_view() =~~= pre.push(text@));
                    assert(segments.deep_view() =~~= orig + segments_of_contents(
                        item.content@.take(i + 1),
                    ));
                }
            },
            ResponseOutputContent::Other => {},
        }
        proof {
            assert(segments.deep_view() =~~= orig + segments_of_contents(
                item.content@.take(i + 1),
            ));
        }
        i += 1;
    }
    proof {
        assert(item.content@.take(item.content@.len() as int) =~= item.content@);
    }
}

/// Extracts the output text of a responses-API success: every output-text
/// and summary-text block across all output items, joined with a newline
/// and trimmed.
pub fn extract_output_text(response: &ResponsesResponse) -> (r: String)
    ensures
        r@ == extracted_text(response.output@),
{
    let mut segments: Vec<String> = Vec::new();
    let mut i: usize = 0;
    proof {
        assert(response.output@.take(0) =~= Seq::<ResponseOutput>::empty());
    }
    while i < response.output.len()
        invariant
            i <= response.output@.len(),
            segments.deep_view() == all_segments(response.output@.take(i as int)),
        decreases response.output@.len() - i,
    {
        item_segments(&response.output[i], &mut segments);
        proof {
            let t = response.output@.take(i + 1);
            assert(t.drop_last() =~= response.output@.take(i as int));
            assert(t.last() == response.output@[i as int]);
        }
        i += 1;
    }
    proof {
        assert(response.output@.take(response.output@.len() as int) =~= response.output@);
    }
    let joined_text = crate::text::join_strings(&segments, "\n");
    str_trim(joined_text.as_str())
}

} // verus!
