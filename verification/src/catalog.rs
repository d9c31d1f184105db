//! The provider's model catalog: identifier-based capability inference,
//! filtering, ordering, and the two-tier time-bounded cache.
//!
//! The provider only reports identifiers; context length and supported
//! input/output kinds are a policy table keyed by identifier prefixes.  A
//! fixed set of superseded, unversioned identifiers is excluded.  The
//! externally visible list is cached for a short window, the raw remote
//! listing for a long one, and an unauthenticated empty result is never
//! cached.

#![verifier::loop_isolation(false)]

use vstd::multiset::Multiset;
use vstd::prelude::*;

use crate::model::{ModelIO, OpenAIModel};
use crate::text::{
    has_substring, lex_le, lex_le_refl, lex_le_total, lex_le_trans, str_contains, str_eq,
    str_lex_le, str_starts_with,
};

verus! {

/// How long the externally visible, classified list stays fresh.
pub const EXPOSED_LIST_TTL_SECONDS: u64 = 120;

/// How long the raw remote listing stays fresh.
pub const RAW_LIST_TTL_SECONDS: u64 = 21600;

/// The fixed set of superseded or unversioned identifiers that are
/// excluded from the catalog.
pub open spec fn excluded_name(n: Seq<char>) -> bool {
    ||| n == "gpt-3.5-turbo"@
    ||| n == "gpt-3.5-turbo-instruct"@
    ||| n == "gpt-4"@
    ||| n == "gpt-4-turbo"@
    ||| n == "gpt-4o"@
    ||| n == "gpt-4o-mini"@
    ||| n == "o1"@
    ||| n == "o1-mini"@
    ||| n == "tts-1"@
    ||| n == "tts-1-hd"@
}

/// Membership test for the exclusion set.
fn is_excluded(name: &str) -> (r: bool)
    ensures
        r == excluded_name(name@),
{
    str_eq(name, "gpt-3.5-turbo") || str_eq(name, "gpt-3.5-turbo-instruct") || str_eq(
        name,
        "gpt-4",
    ) || str_eq(name, "gpt-4-turbo") || str_eq(name, "gpt-4o") || str_eq(name, "gpt-4o-mini")
        || str_eq(name, "o1") || str_eq(name, "o1-mini") || str_eq(name, "tts-1") || str_eq(
        name,
        "tts-1-hd",
    )
}

/// The context length inferred from an identifier.
pub open spec fn context_length_of(n: Seq<char>) -> u64 {
    if "gpt-4-1106"@.is_prefix_of(n) || "gpt-4-vision"@.is_prefix_of(n) {
        128000
    } else if has_substring(n, "-32k"@) {
        32768
    } else if has_substring(n, "-16k"@) || n == "gpt-3.5-turbo-1106"@ {
        16385
    } else if "gpt-4"@.is_prefix_of(n) {
        8192
    } else if "dall-e-2"@.is_prefix_of(n) {
        1000
    } else {
        4096
    }
}

/// The input kinds inferred from an identifier.
pub open spec fn input_kinds_of(n: Seq<char>) -> Seq<ModelIO> {
    if has_substring(n, "vision"@) || "gpt-4o"@.is_prefix_of(n) || "o1"@.is_prefix_of(n)
        || "gpt-5"@.is_prefix_of(n) || "gpt-4.1"@.is_prefix_of(n) {
        seq![ModelIO::Text, ModelIO::Image]
    } else if "whisper"@.is_prefix_of(n) {
        seq![ModelIO::Audio]
    } else {
        seq![ModelIO::Text]
    }
}

/// The output kinds inferred from an identifier.
pub open spec fn output_kinds_of(n: Seq<char>) -> Seq<ModelIO> {
    if has_substring(n, "vision"@) || "gpt-4o"@.is_prefix_of(n) || "o1"@.is_prefix_of(n)
        || "gpt-5"@.is_prefix_of(n) || "gpt-4.1"@.is_prefix_of(n) {
        seq![ModelIO::Text]
    } else if "gpt-4"@.is_prefix_of(n) || "gpt-3.5"@.is_prefix_of(n) {
        seq![ModelIO::Text]
    } else if "dall-e"@.is_prefix_of(n) {
        seq![ModelIO::Image]
    } else if "tts"@.is_prefix_of(n) {
        seq![ModelIO::Audio]
    } else if "whisper"@.is_prefix_of(n) {
        seq![ModelIO::Text]
    } else {
        seq![ModelIO::Text]
    }
}

/// `m` is the catalog descriptor of identifier `n`.
pub open spec fn is_descriptor_of(n: Seq<char>, m: OpenAIModel) -> bool {
    &&& m.model@ == n
    &&& m.context_length == context_length_of(n)
    &&& m.inputs@ == input_kinds_of(n)
    &&& m.outputs@ == output_kinds_of(n)
}

proof fn lemma_prefix_first_char(n: Seq<char>, p: Seq<char>)
    requires
        p.is_prefix_of(n),
        p.len() > 0,
    ensures
        n[0] == p[0],
{
    assert(n.subrange(0, p.len() as int)[0] == n[0]);
}

/// The identifier families tested after the vision family start with
/// different letters than `whisper`, so none of them is whisper-prefixed.
proof fn lemma_not_whisper(n: Seq<char>)
    requires
        "gpt-4"@.is_prefix_of(n) || "gpt-3.5"@.is_prefix_of(n) || "dall-e"@.is_prefix_of(n)
            || "tts"@.is_prefix_of(n),
    ensures
        !"whisper"@.is_prefix_of(n),
{
    reveal_strlit("gpt-4");
    reveal_strlit("gpt-3.5");
    reveal_strlit("dall-e");
    reveal_strlit("tts");
    reveal_strlit("whisper");
    if "whisper"@.is_prefix_of(n) {
        lemma_prefix_first_char(n, "whisper"@);
        if "gpt-4"@.is_prefix_of(n) {
            lemma_prefix_first_char(n, "gpt-4"@);
        }
        if "gpt-3.5"@.is_prefix_of(n) {
            lemma_prefix_first_char(n, "gpt-3.5"@);
        }
        if "dall-e"@.is_prefix_of(n) {
            lemma_prefix_first_char(n, "dall-e"@);
        }
        if "tts"@.is_prefix_of(n) {
            lemma_prefix_first_char(n, "tts"@);
        }
    }
}

/// Builds the catalog descriptor of one identifier, inferring context
/// length and input/output kinds from the naming heuristics.
pub fn descriptor_for(name: String) -> (r: OpenAIModel)
    ensures
        is_descriptor_of(name@, r),
        r.model == name,
{
    let s = name.as_str();
    let context_length: u64 = if str_starts_with(s, "gpt-4-1106") || str_starts_with(
        s,
        "gpt-4-vision",
    ) {
        128000
    } else if str_contains(s, "-32k") {
        32768
    } else if str_contains(s, "-16k") || str_eq(s, "gpt-3.5-turbo-1106") {
        16385
    } else if str_starts_with(s, "gpt-4") {
        8192
    } else if str_starts_with(s, "dall-e-2") {
        1000
    } else {
        4096
    };
    let mut inputs: Vec<ModelIO> = Vec::new();
    let mut outputs: Vec<ModelIO> = Vec::new();
    if str_contains(s, "vision") || str_starts_with(s, "gpt-4o") || str_starts_with(s, "o1")
        || str_starts_with(s, "gpt-5") || str_starts_with(s, "gpt-4.1") {
        inputs.push(ModelIO::Text);
        inputs.push(ModelIO::Image);
        outputs.push(ModelIO::Text);
        proof {
            assert(inputs@ =~= seq![ModelIO::Text, ModelIO::Image]);
            assert(outputs@ =~= seq![ModelIO::Text]);
        }
    } else if str_starts_with(s, "gpt-4") || str_starts_with(s, "gpt-3.5") {
        inputs.push(ModelIO::Text);
        outputs.push(ModelIO::Text);
        proof {
            lemma_not_whisper(name@);
            assert(inputs@ =~= seq![ModelIO::Text]);
            assert(outputs@ =~= seq![ModelIO::Text]);
        }
    } else if str_starts_with(s, "dall-e") {
        inputs.push(ModelIO::Text);
        outputs.push(ModelIO::Image);
        proof {
            lemma_not_whisper(name@);
            assert(inputs@ =~= seq![ModelIO::Text]);
            assert(outputs@ =~= seq![ModelIO::Image]);
        }
    } else if str_starts_with(s, "tts") {
        inputs.push(ModelIO::Text);
        outputs.push(ModelIO::Audio);
        proof {
            lemma_not_whisper(name@);
            assert(inputs@ =~= seq![ModelIO::Text]);
            assert(outputs@ =~= seq![ModelIO::Audio]);
        }
    } else if str_starts_with(s, "whisper") {
        inputs.push(ModelIO::Audio);
        outputs.push(ModelIO::Text);
        proof {
            assert(inputs@ =~= seq![ModelIO::Audio]);
            assert(outputs@ =~= seq![ModelIO::Text]);
        }
    } else {
        inputs.push(ModelIO::Text);
        outputs.push(ModelIO::Text);
        proof {
            assert(inputs@ =~= seq![ModelIO::Text]);
            assert(outputs@ =~= seq![ModelIO::Text]);
        }
    }
    proof {
        assert(inputs@ == input_kinds_of(name@));
        assert(outputs@ == output_kinds_of(name@));
    }
    OpenAIModel { model: name, context_length, inputs, outputs }
}

/// Sorts identifiers into lexicographic order, keeping the multiset of
/// values.
fn sort_names(names: Vec<String>) -> (r: Vec<String>)
    ensures
        r@.to_multiset() == names@.to_multiset(),
        forall|k: int, l: int| #![trigger r@[k], r@[l]] 0 <= k < l < r@.len() ==> lex_le(r@[k]@, r@[l]@),
{
    broadcast use vstd::seq_lib::group_to_multiset_ensures;

    let mut rest = names;
    let mut out: Vec<String> = Vec::new();
    proof {
        assert(out@.to_multiset().add(rest@.to_multiset()) =~= names@.to_multiset());
    }
    while rest.len() > 0
        invariant
            out@.to_multiset().add(rest@.to_multiset()) == names@.to_multiset(),
            forall|k: int, l: int|
                #![trigger out@[k], out@[l]]
                0 <= k < l < out@.len() ==> lex_le(out@[k]@, out@[l]@),
            forall|k: int, j: int|
                #![trigger out@[k], rest@[j]]
                0 <= k < out@.len() && 0 <= j < rest@.len() ==> lex_le(out@[k]@, rest@[j]@),
        decreases rest@.len(),
    {
        let mut min: usize = 0;
        proof {
            lex_le_refl(rest@[0]@);
        }
        let mut j: usize = 1;
        while j < rest.len()
            invariant
                1 <= j <= rest@.len(),
                min < rest@.len(),
                forall|t: int| 0 <= t < j ==> lex_le(rest@[min as int]@, #[trigger] rest@[t]@),
            decreases rest@.len() - j,
        {
            if str_lex_le(rest[j].as_str(), rest[min].as_str()) {
                proof {
                    assert forall|t: int| 0 <= t < j implies lex_le(
                        rest@[j as int]@,
                        #[trigger] rest@[t]@,
                    ) by {
                        lex_le_trans(rest@[j as int]@, rest@[min as int]@, rest@[t]@);
                    }
                    lex_le_refl(rest@[j as int]@);
                }
                min = j;
            } else {
                proof {
                    lex_le_total(rest@[min as int]@, rest@[j as int]@);
                }
            }
            j += 1;
        }
        let ghost pre_rest = rest@;
        let ghost pre_out = out@;
        let x = rest.remove(min);
        out.push(x);
        proof {
            assert(pre_rest.to_multiset().count(pre_rest[min as int]) > 0);
            assert(out@.to_multiset().add(rest@.to_multiset()) =~= names@.to_multiset());
            assert forall|k: int, j2: int|
                #![trigger out@[k], rest@[j2]]
                0 <= k < out@.len() && 0 <= j2 < rest@.len() implies lex_le(out@[k]@, rest@[j2]@) by {
                if j2 < min {
                    assert(rest@[j2] == pre_rest[j2]);
                } else {
                    assert(rest@[j2] == pre_rest[j2 + 1]);
                }
                if k < pre_out.len() {
                    assert(out@[k] == pre_out[k]);
                } else {
                    assert(out@[k] == x);
                }
            }
        }
    }
    proof {
        assert(rest@.to_multiset() =~= Multiset::<String>::empty());
        assert(out@.to_multiset() =~= names@.to_multiset());
    }
    out
}

/// `models` is the catalog built from `names`: the excluded identifiers
/// are dropped, each remaining identifier carries its inferred descriptor,
/// and the list is in lexicographic identifier order.
pub open spec fn is_catalog_of(names: Seq<String>, models: Seq<OpenAIModel>) -> bool {
    &&& forall|k: int|
        0 <= k < models.len() ==> is_descriptor_of((#[trigger] models[k]).model@, models[k])
    &&& forall|k: int, l: int|
        #![trigger models[k], models[l]]
        0 <= k < l < models.len() ==> lex_le(models[k].model@, models[l].model@)
    &&& models.map_values(|m: OpenAIModel| m.model).to_multiset() == names.filter(
        |n: String| !excluded_name(n@),
    ).to_multiset()
}

proof fn lemma_filter_push_name(s: Seq<String>, pred: spec_fn(String) -> bool, x: String)
    ensures
        s.push(x).filter(pred) == if pred(x) {
            s.filter(pred).push(x)
        } else {
            s.filter(pred)
        },
{
    reveal(Seq::filter);
    assert(s.push(x).drop_last() =~= s);
    assert(s.push(x).last() == x);
}

/// Classifies a raw identifier listing into the externally visible
/// catalog: excluded identifiers dropped, the rest sorted lexically and
/// enriched with inferred capabilities.
pub fn classify_models(names: Vec<String>) -> (r: Vec<OpenAIModel>)
    ensures
        is_catalog_of(names@, r@),
{
    broadcast use vstd::seq_lib::group_to_multiset_ensures;

    let ghost pred = |n: String| !excluded_name(n@);
    proof {
        reveal(Seq::filter);
        assert(names@.take(0) =~= Seq::<String>::empty());
    }
    let mut kept: Vec<String> = Vec::new();
    let mut i: usize = 0;
    while i < names.len()
        invariant
            i <= names@.len(),
            kept@ == names@.take(i as int).filter(pred),
        decreases names@.len() - i,
    {
        proof {
            assert(names@.take(i + 1) =~= names@.take(i as int).push(names@[i as int]));
            lemma_filter_push_name(names@.take(i as int), pred, names@[i as int]);
        }
        if !is_excluded(names[i].as_str()) {
            let n = names[i].clone();
            proof {
                assert(n == names@[i as int]);
            }
            kept.push(n);
        }
        i += 1;
    }
    proof {
        assert(names@.take(names@.len() as int) =~= names@);
    }
    let sorted = sort_names(kept);
    let mut r: Vec<OpenAIModel> = Vec::new();
    let mut k: usize = 0;
    while k < sorted.len()
        invariant
            k <= sorted@.len(),
            r@.len() == k,
            forall|t: int| 0 <= t < k ==> (#[trigger] r@[t]).model == sorted@[t],
            forall|t: int| 0 <= t < k ==> is_descriptor_of((#[trigger] r@[t]).model@, r@[t]),
        decreases sorted@.len() - k,
    {
        let name = sorted[k].clone();
        proof {
            assert(name == sorted@[k as int]);
        }
        r.push(descriptor_for(name));
        k += 1;
    }
    proof {
        assert(r@.map_values(|m: OpenAIModel| m.model) =~= sorted@);
        assert(forall|a: int, b: int|
            #![trigger r@[a], r@[b]]
            0 <= a < b < r@.len() ==> lex_le(r@[a].model@, r@[b].model@));
    }
    r
}

/// One cached value with its absolute expiry time, in seconds.
pub struct CacheEntry<T> {
    pub value: T,
    pub expires: u64,
}

/// The two-tier catalog cache: the externally visible list under a short
/// window, the raw remote listing under a long one.
pub struct CatalogCache {
    /// The classified, externally visible list.
    pub exposed: Option<CacheEntry<Vec<OpenAIModel>>>,
    /// The raw identifier listing as the provider returned it.
    pub raw: Option<CacheEntry<Vec<String>>>,
}

/// What one catalog listing call asks of the harness: either the answer
/// is ready, or the raw listing must be fetched from the provider.
pub enum ListStep {
    Ready(Vec<OpenAIModel>),
    Fetch,
}

/// `now` plus a window, capped instead of wrapping.
pub open spec fn expiry_after(now: u64, ttl: u64) -> u64 {
    if now + ttl <= u64::MAX {
        (now + ttl) as u64
    } else {
        u64::MAX
    }
}

fn expiry_at(now: u64, ttl: u64) -> (r: u64)
    ensures
        r == expiry_after(now, ttl),
{
    if now <= u64::MAX - ttl {
        now + ttl
    } else {
        u64::MAX
    }
}

/// Whether the exposed tier answers at time `now`.
pub open spec fn exposed_fresh(c: CatalogCache, now: u64) -> bool {
    c.exposed matches Some(e) && now < e.expires
}

/// Whether the raw tier answers at time `now`.
pub open spec fn raw_fresh(c: CatalogCache, now: u64) -> bool {
    c.raw matches Some(rw) && now < rw.expires
}

/// The two lists carry the same descriptors, field for field.
pub open spec fn models_equiv(a: Seq<OpenAIModel>, b: Seq<OpenAIModel>) -> bool {
    &&& a.len() == b.len()
    &&& forall|k: int|
        0 <= k < a.len() ==> {
            &&& (#[trigger] a[k]).model@ == b[k].model@
            &&& a[k].context_length == b[k].context_length
            &&& a[k].inputs@ == b[k].inputs@
            &&& a[k].outputs@ == b[k].outputs@
        }
}

/// Copies a capability list; its elements are plain values.
fn copy_io_list(list: &Vec<ModelIO>) -> (r: Vec<ModelIO>)
    ensures
        r@ == list@,
{
    let mut r: Vec<ModelIO> = Vec::new();
    let mut i: usize = 0;
    while i < list.len()
        invariant
            i <= list@.len(),
            r@ == list@.take(i as int),
        decreases list@.len() - i,
    {
        r.push(list[i]);
        proof {
            assert(r@ =~= list@.take(i + 1));
        }
        i += 1;
    }
    proof {
        assert(list@.take(list@.len() as int) =~= list@);
    }
    r
}

/// Copies a list of descriptors, field for field.
fn copy_models(list: &Vec<OpenAIModel>) -> (r: Vec<OpenAIModel>)
    ensures
        models_equiv(r@, list@),
{
    let mut r: Vec<OpenAIModel> = Vec::new();
    let mut i: usize = 0;
    while i < list.len()
        invariant
            i <= list@.len(),
            models_equiv(r@, list@.take(i as int)),
        decreases list@.len() - i,
    {
        let m = &list[i];
        r.push(
            OpenAIModel {
                model: m.model.clone(),
                context_length: m.context_length,
                inputs: copy_io_list(&m.inputs),
                outputs: copy_io_list(&m.outputs),
            },
        );
        i += 1;
    }
    r
}

impl CatalogCache {
    /// An empty cache: nothing is fresh.
    pub fn new() -> (r: CatalogCache)
        ensures
            r.exposed is None,
            r.raw is None,
    {
        CatalogCache { exposed: None, raw: None }
    }

    /// One catalog listing call against the cache.
    ///
    /// Without a credential the answer is the empty list, and neither tier
    /// is consulted or written, so a credential supplied later is observed
    /// on the very next call.  With a credential, a fresh exposed list is
    /// answered as is; otherwise a fresh raw listing is reclassified and
    /// the exposed tier refreshed; otherwise the harness must fetch.
    pub fn list(&mut self, now: u64, has_credential: bool) -> (r: ListStep)
        ensures
            !has_credential ==> (r matches ListStep::Ready(v) && v@.len() == 0 && *final(self) == *old(
                self,
            )),
            has_credential && exposed_fresh(*old(self), now) ==> (r matches ListStep::Ready(v)
                && models_equiv(v@, old(self).exposed->Some_0.value@) && *final(self) == *old(self)),
            has_credential && !exposed_fresh(*old(self), now) && raw_fresh(*old(self), now) ==> (r
                matches ListStep::Ready(v) && is_catalog_of(old(self).raw->Some_0.value@, v@)
                && final(self).raw == old(self).raw && (final(self).exposed matches Some(e2) && models_equiv(
                e2.value@,
                v@,
            ) && e2.expires == expiry_after(now, EXPOSED_LIST_TTL_SECONDS))),
            has_credential && !exposed_fresh(*old(self), now) && !raw_fresh(*old(self), now) ==> (r
                is Fetch && *final(self) == *old(self)),
    {
        if !has_credential {
            return ListStep::Ready(Vec::new());
        }
        let exposed_fresh = match &self.exposed {
            Some(e) => now < e.expires,
            None => false,
        };
        if exposed_fresh {
            match &self.exposed {
                Some(e) => {
                    return ListStep::Ready(copy_models(&e.value));
                },
                None => {},
            }
        }
        let raw_fresh = match &self.raw {
            Some(rw) => now < rw.expires,
            None => false,
        };
        if raw_fresh {
            let names = match &self.raw {
                Some(rw) => {
                    let mut names: Vec<String> = Vec::new();
                    let mut i: usize = 0;
                    while i < rw.value.len()
                        invariant
                            i <= rw.value@.len(),
                            names@ == rw.value@.take(i as int),
                        decreases rw.value@.len() - i,
                    {
                        let n = rw.value[i].clone();
                        proof {
                            assert(n == rw.value@[i as int]);
                        }
                        names.push(n);
                        proof {
                            assert(names@ =~= rw.value@.take(i + 1));
                        }
                        i += 1;
                    }
                    proof {
                        assert(rw.value@.take(rw.value@.len() as int) =~= rw.value@);
                    }
                    names
                },
                None => Vec::new(),
            };
            let models = classify_models(names);
            let copy = copy_models(&models);
            self.exposed = Some(
                CacheEntry { value: copy, expires: expiry_at(now, EXPOSED_LIST_TTL_SECONDS) },
            );
            return ListStep::Ready(models);
        }
        ListStep::Fetch
    }

    /// Stores a fetched raw listing in both tiers and returns the
    /// classified catalog it yields.
    pub fn store_fetched(&mut self, now: u64, names: Vec<String>) -> (r: Vec<OpenAIModel>)
        ensures
            is_catalog_of(names@, r@),
            final(self).raw matches Some(rw) && rw.value@ == names@ && rw.expires == expiry_after(
                now,
                RAW_LIST_TTL_SECONDS,
            ),
            final(self).exposed matches Some(e) && models_equiv(e.value@, r@) && e.expires
                == expiry_after(now, EXPOSED_LIST_TTL_SECONDS),
    {
        let mut raw_copy: Vec<String> = Vec::new();
        let mut i: usize = 0;
        while i < names.len()
            invariant
                i <= names@.len(),
                raw_copy@ == names@.take(i as int),
            decreases names@.len() - i,
        {
            let n = names[i].clone();
            proof {
                assert(n == names@[i as int]);
            }
            raw_copy.push(n);
            proof {
                assert(raw_copy@ =~= names@.take(i + 1));
            }
            i += 1;
        }
        proof {
            assert(names@.take(names@.len() as int) =~= names@);
        }
        let models = classify_models(names);
        let copy = copy_models(&models);
        self.raw = Some(CacheEntry { value: raw_copy, expires: expiry_at(now, RAW_LIST_TTL_SECONDS) });
        self.exposed = Some(
            CacheEntry { value: copy, expires: expiry_at(now, EXPOSED_LIST_TTL_SECONDS) },
        );
        models
    }
}

} // verus!
