//! The hosted backend that answers a request in one call.

use crate::errors::ValidationIssue;
use crate::parameters::provider::ProviderConfiguration;
use crate::parameters::text_to_image::{TextToImageRequest, TextToImageRequestView};
use crate::text::{ascii_lowercase, same_ignoring_ascii_case, same_text_ignoring_ascii_case};
use vstd::prelude::*;
use vstd::string::*;

verus! {

/// The name of the environment variable that holds the API key.
pub const OPENAI_API_KEY_VARIABLE: &'static str = "OPENAI_API_KEY";

/// The sizes that the backend generates.
#[derive(Debug, Clone, Copy, PartialEq, Eq, Structural)]
pub enum ImageSize {
    S256x256,
    S512x512,
    S1024x1024,
    S1792x1024,
    S1024x1792,
}

/// The models that the backend offers, and any other by its name.
#[derive(Debug, PartialEq)]
pub enum ImageModel {
    DallE2,
    DallE3,
    Other(String),
}

/// What an [`ImageModel`] holds.
pub enum ImageModelView {
    DallE2,
    DallE3,
    Other(Seq<char>),
}

impl View for ImageModel {
    type V = ImageModelView;

    open spec fn view(&self) -> ImageModelView {
        match self {
            ImageModel::DallE2 => ImageModelView::DallE2,
            ImageModel::DallE3 => ImageModelView::DallE3,
            ImageModel::Other(name) => ImageModelView::Other(name@),
        }
    }
}

impl Clone for ImageModel {
    fn clone(&self) -> (r: Self)
        ensures
            r@ == self@,
    {
        match self {
            ImageModel::DallE2 => ImageModel::DallE2,
            ImageModel::DallE3 => ImageModel::DallE3,
            ImageModel::Other(name) => ImageModel::Other(name.clone()),
        }
    }
}

/// The form in which the backend returns an image.
#[derive(Debug, Clone, Copy, PartialEq, Eq, Structural)]
pub enum ImageResponseFormat {
    Url,
    B64Json,
}

/// The size that is asked of the backend for the requested dimensions: the one of exactly
/// these dimensions where the backend has it, 1024 by 1024 otherwise and where a dimension
/// is missing.
pub open spec fn openai_size(width: Option<u32>, height: Option<u32>) -> ImageSize {
    if width == Some(1024u32) && height == Some(1792u32) {
        ImageSize::S1024x1792
    } else if width == Some(1792u32) && height == Some(1024u32) {
        ImageSize::S1792x1024
    } else if width == Some(256u32) && height == Some(256u32) {
        ImageSize::S256x256
    } else if width == Some(512u32) && height == Some(512u32) {
        ImageSize::S512x512
    } else {
        ImageSize::S1024x1024
    }
}

/// The model that is asked of the backend for the requested name: `dall-e-3` where the
/// name is that, whatever the case of its letters, and `dall-e-2` otherwise and where no
/// name is given.
pub open spec fn openai_model(model: Option<Seq<char>>) -> ImageModelView {
    match model {
        Some(name) => if same_ignoring_ascii_case(name, "dall-e-3"@) {
            ImageModelView::DallE3
        } else {
            ImageModelView::DallE2
        },
        None => ImageModelView::DallE2,
    }
}

/// Whether a number of batches is one that a synchronous provider takes.
pub open spec fn valid_batch_count(num_batches: u32) -> bool {
    0 < num_batches < 256
}

/// The number of images that is asked of a synchronous provider: the requested number of
/// batches where it is valid, one otherwise and where none is given.
pub open spec fn batch_size_of(num_batches: Option<u32>) -> u8 {
    match num_batches {
        Some(n) => if valid_batch_count(n) {
            n as u8
        } else {
            1
        },
        None => 1,
    }
}

/// The warning that a number of batches calls for: one for a number that is not valid.
pub open spec fn batch_size_warning(num_batches: Option<u32>) -> Option<ValidationIssue> {
    match num_batches {
        Some(n) => if valid_batch_count(n) {
            None
        } else {
            Some(ValidationIssue::BatchCount { requested: n })
        },
        None => None,
    }
}

/// Clamps a number of batches to what a synchronous provider takes, and warns where it
/// had to.
pub fn clamp_batch_size(num_batches: Option<u32>) -> (r: (u8, Option<ValidationIssue>))
    ensures
        r.0 == batch_size_of(num_batches),
        r.1 == batch_size_warning(num_batches),
        r.0 >= 1,
{
    match num_batches {
        Some(n) => {
            if n > 0 && n < 256 {
                (n as u8, None)
            } else {
                (1, Some(ValidationIssue::BatchCount { requested: n }))
            }
        },
        None => (1, None),
    }
}

/// The size to ask of the backend for the requested dimensions.
pub fn to_openai_size(width: Option<u32>, height: Option<u32>) -> (r: ImageSize)
    ensures
        r == openai_size(width, height),
{
    match (width, height) {
        (Some(1024), Some(1024)) => ImageSize::S1024x1024,
        (Some(1024), Some(1792)) => ImageSize::S1024x1792,
        (Some(1792), Some(1024)) => ImageSize::S1792x1024,
        (Some(256), Some(256)) => ImageSize::S256x256,
        (Some(512), Some(512)) => ImageSize::S512x512,
        _ => ImageSize::S1024x1024,
    }
}

/// The model to ask of the backend for the requested name.
pub fn to_openai_model(model: Option<String>) -> (r: ImageModel)
    ensures
        r@ == openai_model(model.deep_view()),
{
    match model {
        Some(name) => {
            if same_text_ignoring_ascii_case(name.as_str(), "dall-e-2") {
                proof {
                    lemma_model_names_differ(name@);
                }
                ImageModel::DallE2
            } else if same_text_ignoring_ascii_case(name.as_str(), "dall-e-3") {
                ImageModel::DallE3
            } else {
                ImageModel::DallE2
            }
        },
        None => ImageModel::DallE2,
    }
}

/// No name is both models' at once.
proof fn lemma_model_names_differ(name: Seq<char>)
    requires
        same_ignoring_ascii_case(name, "dall-e-2"@),
    ensures
        !same_ignoring_ascii_case(name, "dall-e-3"@),
{
    reveal_strlit("dall-e-2");
    reveal_strlit("dall-e-3");
    if same_ignoring_ascii_case(name, "dall-e-3"@) {
        assert(ascii_lowercase(name[7]) == ascii_lowercase('3'));
    }
}

/// The number of images to ask of the backend for the requested number of batches, and the
/// warning where the request had to be corrected.
pub fn to_openai_batch_size(num_batches: Option<u32>) -> (r: (u8, Option<ValidationIssue>))
    ensures
        r.0 == batch_size_of(num_batches),
        r.1 == batch_size_warning(num_batches),
{
    clamp_batch_size(num_batches)
}

/// What is asked of a hosted backend for one request.
#[derive(Debug, PartialEq)]
pub struct ImageRequest {
    pub model: ImageModel,
    pub prompt: String,
    /// The number of images.
    pub n: u8,
    pub response_format: ImageResponseFormat,
    /// The size of the images, where the backend takes one.
    pub size: Option<ImageSize>,
}

/// What an [`ImageRequest`] holds.
pub struct ImageRequestView {
    pub model: ImageModelView,
    pub prompt: Seq<char>,
    pub n: u8,
    pub response_format: ImageResponseFormat,
    pub size: Option<ImageSize>,
}

impl View for ImageRequest {
    type V = ImageRequestView;

    open spec fn view(&self) -> ImageRequestView {
        ImageRequestView {
            model: self.model@,
            prompt: self.prompt@,
            n: self.n,
            response_format: self.response_format,
            size: self.size,
        }
    }
}

/// The positive prompt of a request, or the empty text where it has none.
pub open spec fn prompt_text(prompt: Option<Seq<char>>) -> Seq<char> {
    match prompt {
        Some(text) => text,
        None => Seq::empty(),
    }
}

/// The positive prompt of a request, or the empty text where it has none.
pub fn prompt_or_default(prompt: Option<String>) -> (r: String)
    ensures
        r@ == prompt_text(prompt.deep_view()),
{
    match prompt {
        Some(text) => text,
        None => String::new(),
    }
}

/// A provider for generating images with the hosted API. There is nothing to configure on
/// the level of the provider.
#[derive(Debug, Clone, Copy, PartialEq, Eq, Structural)]
pub struct OpenAiProvider {}

impl OpenAiProvider {
    /// What this provider asks of the backend for a request.
    pub open spec fn request_for(request: TextToImageRequestView) -> ImageRequestView {
        ImageRequestView {
            model: openai_model(request.model),
            prompt: prompt_text(request.prompt.positive_prompt),
            n: batch_size_of(request.num_batches),
            response_format: ImageResponseFormat::B64Json,
            size: Some(openai_size(request.width, request.height)),
        }
    }

    /// Normalizes a request into what is asked of the backend, and warns where a value had
    /// to be corrected.
    pub fn prepare(&self, request: TextToImageRequest) -> (r: (
        ImageRequest,
        Option<ValidationIssue>,
    ))
        ensures
            r.0@ == Self::request_for(request@),
            r.1 == batch_size_warning(request@.num_batches),
    {
        let (n, warning) = to_openai_batch_size(request.num_batches);
        let image_request = ImageRequest {
            model: to_openai_model(request.model),
            prompt: prompt_or_default(request.prompt.positive_prompt),
            n,
            response_format: ImageResponseFormat::B64Json,
            size: Some(to_openai_size(request.width, request.height)),
        };
        (image_request, warning)
    }
}

impl vstd::std_specs::convert::FromSpecImpl<&ProviderConfiguration> for OpenAiProvider {
    open spec fn obeys_from_spec() -> bool {
        true
    }

    open spec fn from_spec(config: &ProviderConfiguration) -> Self {
        OpenAiProvider {  }
    }
}

impl From<&ProviderConfiguration> for OpenAiProvider {
    fn from(_config: &ProviderConfiguration) -> (r: Self) {
        OpenAiProvider {  }
    }
}

} // verus!
