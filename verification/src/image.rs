//! The image-generation request builder.
//!
//! Abstract size, quality and style parameters are mapped onto the
//! provider's enumerated options by exact (size) or ASCII-case-insensitive
//! (keyword) match; anything unmatched is rejected, naming the offending
//! value.  The prompt is the concatenated text of the final message.

#![verifier::loop_isolation(false)]

use vstd::prelude::*;

use crate::chat::text_views;
use crate::error::Error;
use crate::schema::{ModelOutput, ModelTask, OutputKind};
use crate::text::{eq_ignore_case, join_strings, joined, str_eq_ignore_case};

verus! {

/// The provider's enumerated image sizes.
#[derive(Clone, Copy, Debug, PartialEq, Eq, Structural)]
pub enum ImageSize {
    S256x256,
    S512x512,
    S1024x1024,
    S1024x1792,
    S1792x1024,
}

/// The provider's enumerated image qualities.
#[derive(Clone, Copy, Debug, PartialEq, Eq, Structural)]
pub enum ImageQuality {
    Standard,
    HighDefinition,
}

/// The provider's enumerated image styles.
#[derive(Clone, Copy, Debug, PartialEq, Eq, Structural)]
pub enum ImageStyle {
    Natural,
    Vivid,
}

/// The body of an image-generation request.  The response format is
/// always a URL.
#[derive(Clone, Debug)]
pub struct ImageRequest {
    pub prompt: String,
    pub size: Option<ImageSize>,
    pub quality: Option<ImageQuality>,
    pub style: Option<ImageStyle>,
}

/// The enumerated size a width/height pair maps to, by exact match.
pub open spec fn size_option(w: u32, h: u32) -> Option<ImageSize> {
    if w == 256 && h == 256 {
        Some(ImageSize::S256x256)
    } else if w == 512 && h == 512 {
        Some(ImageSize::S512x512)
    } else if w == 1024 && h == 1024 {
        Some(ImageSize::S1024x1024)
    } else if w == 1024 && h == 1792 {
        Some(ImageSize::S1024x1792)
    } else if w == 1792 && h == 1024 {
        Some(ImageSize::S1792x1024)
    } else {
        None
    }
}

/// The width and height of an enumerated size.
pub open spec fn size_dims(s: ImageSize) -> (u32, u32) {
    match s {
        ImageSize::S256x256 => (256u32, 256u32),
        ImageSize::S512x512 => (512u32, 512u32),
        ImageSize::S1024x1024 => (1024u32, 1024u32),
        ImageSize::S1024x1792 => (1024u32, 1792u32),
        ImageSize::S1792x1024 => (1792u32, 1024u32),
    }
}

/// A pair that maps to an enumerated size maps back to itself: the size
/// mapping loses nothing.
pub proof fn lemma_size_round_trip(w: u32, h: u32)
    ensures
        size_option(w, h) matches Some(s) ==> size_dims(s) == (w, h),
{
}

/// Every enumerated size is reached from its own dimensions.
pub proof fn lemma_size_covers(s: ImageSize)
    ensures
        size_option(size_dims(s).0, size_dims(s).1) == Some(s),
{
}

/// The enumerated quality a keyword maps to, up to ASCII case.
pub open spec fn quality_option(q: Seq<char>) -> Option<ImageQuality> {
    if eq_ignore_case(q, "std"@) || eq_ignore_case(q, "standard"@) {
        Some(ImageQuality::Standard)
    } else if eq_ignore_case(q, "hd"@) || eq_ignore_case(q, "high-definition"@) {
        Some(ImageQuality::HighDefinition)
    } else {
        None
    }
}

/// The enumerated style a keyword maps to, up to ASCII case.
pub open spec fn style_option(s: Seq<char>) -> Option<ImageStyle> {
    if eq_ignore_case(s, "nat"@) || eq_ignore_case(s, "natural"@) {
        Some(ImageStyle::Natural)
    } else if eq_ignore_case(s, "viv"@) || eq_ignore_case(s, "vivid"@) {
        Some(ImageStyle::Vivid)
    } else {
        None
    }
}

/// The prompt of an image task: the concatenated text parts of the final
/// message, or empty when there is no message.
pub open spec fn prompt_of(task: ModelTask) -> Seq<char> {
    if task.messages@.len() == 0 {
        Seq::empty()
    } else {
        joined(text_views(task.messages@.last().parts@), ""@)
    }
}

/// Maps a quality keyword.
fn quality_of(q: &str) -> (r: Option<ImageQuality>)
    ensures
        r == quality_option(q@),
{
    if str_eq_ignore_case(q, "std") || str_eq_ignore_case(q, "standard") {
        Some(ImageQuality::Standard)
    } else if str_eq_ignore_case(q, "hd") || str_eq_ignore_case(q, "high-definition") {
        Some(ImageQuality::HighDefinition)
    } else {
        None
    }
}

/// Maps a style keyword.
fn style_of(s: &str) -> (r: Option<ImageStyle>)
    ensures
        r == style_option(s@),
{
    if str_eq_ignore_case(s, "nat") || str_eq_ignore_case(s, "natural") {
        Some(ImageStyle::Natural)
    } else if str_eq_ignore_case(s, "viv") || str_eq_ignore_case(s, "vivid") {
        Some(ImageStyle::Vivid)
    } else {
        None
    }
}

/// Whether a task's requested image size is acceptable (absent counts as
/// acceptable).
pub open spec fn size_acceptable(task: ModelTask) -> bool {
    match task.image_size {
        Some((w, h)) => size_option(w, h) is Some,
        None => true,
    }
}

/// Whether a task's requested image quality is acceptable.
pub open spec fn quality_acceptable(task: ModelTask) -> bool {
    match task.image_quality {
        Some(q) => quality_option(q@) is Some,
        None => true,
    }
}

/// Whether a task's requested image style is acceptable.
pub open spec fn style_acceptable(task: ModelTask) -> bool {
    match task.image_style {
        Some(s) => style_option(s@) is Some,
        None => true,
    }
}

/// All three image parameters of `task` are acceptable.
pub open spec fn image_params_acceptable(task: ModelTask) -> bool {
    size_acceptable(task) && quality_acceptable(task) && style_acceptable(task)
}

/// `req` is the image request of `task`: the prompt is the final
/// message's text and each parameter is mapped onto its enumerated
/// option.
pub open spec fn is_image_request_of(task: ModelTask, req: ImageRequest) -> bool {
    &&& req.prompt@ == prompt_of(task)
    &&& req.size == (match task.image_size {
        Some((w, h)) => size_option(w, h),
        None => None,
    })
    &&& req.quality == (match task.image_quality {
        Some(q) => quality_option(q@),
        None => None,
    })
    &&& req.style == (match task.image_style {
        Some(s) => style_option(s@),
        None => None,
    })
}

/// `e` is the rejection `task`'s image parameters earn: the first
/// unmatched value in checking order, named.
pub open spec fn is_image_rejection(task: ModelTask, e: Error) -> bool {
    match e {
        Error::UnsupportedImageSize { width, height } => task.image_size == Some((width, height))
            && size_option(width, height) is None,
        Error::UnsupportedImageQuality { value } => size_acceptable(task) && task.image_quality
            == Some(value) && quality_option(value@) is None,
        Error::UnsupportedImageStyle { value } => size_acceptable(task) && quality_acceptable(task)
            && task.image_style == Some(value) && style_option(value@) is None,
        _ => false,
    }
}

/// Builds the image-generation request for a task.  Succeeds exactly when
/// size, quality and style are all acceptable; an unmatched value fails,
/// naming it, with the size checked first, then the quality, then the
/// style.
pub fn build_image_request(task: &ModelTask) -> (r: Result<ImageRequest, Error>)
    ensures
        r is Ok <==> image_params_acceptable(*task),
        r matches Ok(req) ==> is_image_request_of(*task, req),
        r matches Err(e) ==> is_image_rejection(*task, e),
{
    let prompt = if task.messages.len() == 0 {
        String::new()
    } else {
        let texts = crate::chat::collect_texts(&task.messages[task.messages.len() - 1].parts);
        join_strings(&texts, "")
    };
    let size = match task.image_size {
        Some((w, h)) => {
            if w == 256 && h == 256 {
                Some(ImageSize::S256x256)
            } else if w == 512 && h == 512 {
                Some(ImageSize::S512x512)
            } else if w == 1024 && h == 1024 {
                Some(ImageSize::S1024x1024)
            } else if w == 1024 && h == 1792 {
                Some(ImageSize::S1024x1792)
            } else if w == 1792 && h == 1024 {
                Some(ImageSize::S1792x1024)
            } else {
                return Err(Error::UnsupportedImageSize { width: w, height: h });
            }
        },
        None => None,
    };
    let quality = match &task.image_quality {
        Some(q) => match quality_of(q.as_str()) {
            Some(mapped) => Some(mapped),
            None => {
                return Err(Error::UnsupportedImageQuality { value: q.clone() });
            },
        },
        None => None,
    };
    let style = match &task.image_style {
        Some(s) => match style_of(s.as_str()) {
            Some(mapped) => Some(mapped),
            None => {
                return Err(Error::UnsupportedImageStyle { value: s.clone() });
            },
        },
        None => None,
    };
    Ok(ImageRequest { prompt, size, quality, style })
}

/// One image result of an image-generation success.
#[derive(Clone, Debug)]
pub enum ImageResult {
    /// The generated image, by URL.
    Url { url: String },
    /// The generated image, inline; not requested and not accepted.
    Inline { data: String },
}

/// The body of an image-generation success.
#[derive(Clone, Debug)]
pub struct ImageResponse {
    pub data: Vec<ImageResult>,
}

/// Folds an image-generation success into the normalized output: the
/// first image result must exist and be URL-typed; the output carries its
/// URL under the fixed PNG media type.
pub fn image_output(response: &ImageResponse) -> (r: Result<ModelOutput, Error>)
    ensures
        response.data@.len() == 0 ==> (r matches Err(e) && e == Error::EmptyImageData),
        response.data@.len() > 0 ==> match response.data@[0] {
            ImageResult::Url { url } => r matches Ok(o) && o.kind == OutputKind::Url
                && (o.media_type matches Some(m) && m@ == "image/png"@) && o.content@ == url@,
            ImageResult::Inline { .. } => r matches Err(e) && e == Error::UnexpectedImageType,
        },
{
    if response.data.len() == 0 {
        return Err(Error::EmptyImageData);
    }
    match &response.data[0] {
        ImageResult::Url { url } => Ok(
            ModelOutput::from_url("image/png".to_owned(), url.clone()),
        ),
        ImageResult::Inline { .. } => Err(Error::UnexpectedImageType),
    }
}

} // verus!
