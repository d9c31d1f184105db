//! The descriptor of one provider model: its identifier and its inferred
//! capabilities.
//!
//! Context length and supported input/output kinds are inferred from
//! identifier-naming heuristics (see the catalog module), not reported by
//! the provider; the descriptor only carries them.

#![verifier::loop_isolation(false)]

use vstd::prelude::*;

use crate::text::{find_char_from, str_starts_with};

verus! {

/// A kind of data a model can consume or produce.
#[derive(Clone, Copy, Debug, PartialEq, Eq, Structural)]
pub enum ModelIO {
    Text,
    Image,
    Audio,
    Video,
}

/// Where a model runs.
#[derive(Clone, Copy, Debug, PartialEq, Eq, Structural)]
pub enum ModelType {
    Local,
    Remote,
}

/// A model available from the provider.
#[derive(Clone, Debug)]
pub struct OpenAIModel {
    /// The provider's name for the model, e.g. `gpt-4.1-mini`.
    pub model: String,
    /// The inferred context length of the model.
    pub context_length: u64,
    /// The kinds of input the model consumes.
    pub inputs: Vec<ModelIO>,
    /// The kinds of output the model generates.
    pub outputs: Vec<ModelIO>,
}

/// What `to_title_case` makes of a character sequence.
pub uninterp spec fn title_cased(s: Seq<char>) -> Seq<char>;

/// Relies on inflector's `to_title_case`: the result is a function of the
/// input characters alone.
#[verifier::external_body]
fn to_title_case(s: &str) -> (r: String)
    ensures
        r@ == title_cased(s@),
{
    inflector::cases::titlecase::to_title_case(s)
}

/// The index of the first dash in `s`, or `s.len()` when there is none.
pub open spec fn first_dash(s: Seq<char>) -> int
    decreases s.len(),
{
    if s.len() == 0 {
        0
    } else if s[0] == '-' {
        0
    } else {
        1 + first_dash(s.drop_first())
    }
}

proof fn lemma_first_dash(s: Seq<char>, n: int)
    requires
        0 <= n <= s.len(),
        forall|j: int| 0 <= j < n ==> s[j] != '-',
        n < s.len() ==> s[n] == '-',
    ensures
        first_dash(s) == n,
    decreases n,
{
    if s.len() > 0 && n > 0 {
        lemma_first_dash(s.drop_first(), n - 1);
    }
}

/// The human-readable family name of a model: a fixed name for the known
/// families, else the identifier's first dash-separated segment in title
/// case.
pub open spec fn name_of(model: Seq<char>) -> Seq<char> {
    if "gpt"@.is_prefix_of(model) {
        "GPT"@
    } else if "tts"@.is_prefix_of(model) {
        "TTS"@
    } else if "dall-e"@.is_prefix_of(model) {
        "DALL\u{b7}E"@
    } else {
        title_cased(model.take(first_dash(model)))
    }
}

/// The version of a model: what follows the first dash of its identifier,
/// except that a leading `dall-e` family name is kept whole so its own
/// dash does not start the version.
pub open spec fn version_of(model: Seq<char>) -> Seq<char> {
    let start: int = if "dall-e"@.is_prefix_of(model) {
        6
    } else {
        0
    };
    let rest = model.skip(start);
    if first_dash(rest) < rest.len() {
        model.skip(start + first_dash(rest) + 1)
    } else {
        Seq::empty()
    }
}

impl OpenAIModel {
    /// A descriptor with the given identifier and inferred capabilities.
    pub fn new(model: String, context_length: u64, inputs: Vec<ModelIO>, outputs: Vec<ModelIO>) -> (
        r: OpenAIModel)
        ensures
            r.model == model,
            r.context_length == context_length,
            r.inputs == inputs,
            r.outputs == outputs,
    {
        OpenAIModel { model, context_length, inputs, outputs }
    }

    /// The model's global identifier: the provider prefix plus its name.
    pub fn id(&self) -> (r: String)
        ensures
            r@ == "openai/"@ + self.model@,
    {
        let mut r = "openai/".to_owned();
        r.append(self.model.as_str());
        r
    }

    /// The kind of deployment this model is.
    pub fn model_type(&self) -> (r: ModelType)
        ensures
            r == ModelType::Remote,
    {
        ModelType::Remote
    }

    /// The provider's name.
    pub fn provider(&self) -> (r: String)
        ensures
            r@ == "OpenAI"@,
    {
        "OpenAI".to_owned()
    }

    /// The human-readable family name of the model.
    pub fn name(&self) -> (r: String)
        ensures
            r@ == name_of(self.model@),
    {
        if str_starts_with(self.model.as_str(), "gpt") {
            "GPT".to_owned()
        } else if str_starts_with(self.model.as_str(), "tts") {
            "TTS".to_owned()
        } else if str_starts_with(self.model.as_str(), "dall-e") {
            "DALL\u{b7}E".to_owned()
        } else {
            let s = self.model.as_str();
            let stem = match find_char_from(s, 0, '-') {
                Some(i) => {
                    proof {
                        lemma_first_dash(s@, i as int);
                    }
                    s.substring_char(0, i)
                },
                None => {
                    proof {
                        lemma_first_dash(s@, s@.len() as int);
                        assert(s@.take(s@.len() as int) =~= s@);
                    }
                    s
                },
            };
            to_title_case(stem)
        }
    }

    /// The version of the model, taken from its identifier.
    pub fn version(&self) -> (r: String)
        ensures
            r@ == version_of(self.model@),
    {
        let s = self.model.as_str();
        let len = s.unicode_len();
        proof {
            reveal_strlit("dall-e");
        }
        let start: usize = if str_starts_with(s, "dall-e") {
            6
        } else {
            0
        };
        match find_char_from(s, start, '-') {
            Some(i) => {
                proof {
                    lemma_first_dash(s@.skip(start as int), i - start);
                    assert(s@.skip(i + 1) =~= s@.subrange(i + 1, s@.len() as int));
                }
                s.substring_char(i + 1, len).to_owned()
            },
            None => {
                proof {
                    lemma_first_dash(s@.skip(start as int), s@.len() - start);
                }
                String::new()
            },
        }
    }

    /// The inferred context length.
    pub fn context_length(&self) -> (r: u64)
        ensures
            r == self.context_length,
    {
        self.context_length
    }

    /// The kinds of input the model consumes.
    pub fn supported_inputs(&self) -> (r: &Vec<ModelIO>)
        ensures
            r == &self.inputs,
    {
        &self.inputs
    }

    /// The kinds of output the model generates.
    pub fn supported_outputs(&self) -> (r: &Vec<ModelIO>)
        ensures
            r == &self.outputs,
    {
        &self.outputs
    }

    /// Whether the model declares at least one non-text input capability,
    /// which the attachment-carrying request path requires.
    pub fn supports_attachments(&self) -> (r: bool)
        ensures
            r == (self.inputs@.contains(ModelIO::Image) || self.inputs@.contains(ModelIO::Audio)
                || self.inputs@.contains(ModelIO::Video)),
    {
        io_list_contains(&self.inputs, ModelIO::Image) || io_list_contains(
            &self.inputs,
            ModelIO::Audio,
        ) || io_list_contains(&self.inputs, ModelIO::Video)
    }
}

/// Membership test on a capability list.
fn io_list_contains(list: &Vec<ModelIO>, io: ModelIO) -> (r: bool)
    ensures
        r == list@.contains(io),
{
    let mut i: usize = 0;
    while i < list.len()
        invariant
            i <= list@.len(),
            forall|j: int| 0 <= j < i ==> list@[j] != io,
        decreases list@.len() - i,
    {
        if list[i] == io {
            return true;
        }
        i += 1;
    }
    false
}

} // verus!
