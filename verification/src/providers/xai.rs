//! The hosted backend with the compatible wire format.

use crate::errors::ValidationIssue;
use crate::parameters::provider::ProviderConfiguration;
use crate::parameters::text_to_image::{TextToImageRequest, TextToImageRequestView};
use crate::providers::openai::{
    batch_size_of, batch_size_warning, clamp_batch_size, prompt_or_default, prompt_text,
    ImageModel, ImageModelView, ImageRequest, ImageRequestView, ImageResponseFormat,
};
use vstd::prelude::*;
use vstd::string::*;

verus! {

/// Where the API of the backend is found.
pub const XAI_BASE_URL: &'static str = "https://api.x.ai/v1";

/// The name of the environment variable that holds the API key.
pub const XAI_API_KEY_VARIABLE: &'static str = "XAI_API_KEY";

/// The model that is used where the request names none.
pub const XAI_DEFAULT_MODEL: &'static str = "grok-2-image";

/// The model that is asked of the backend for the requested name: the model of that name,
/// or the default model where no name is given.
pub open spec fn xai_model(model: Option<Seq<char>>) -> ImageModelView {
    match model {
        Some(name) => ImageModelView::Other(name),
        None => ImageModelView::Other(XAI_DEFAULT_MODEL@),
    }
}

/// The model to ask of the backend for the requested name.
pub fn to_xai_model(model: Option<String>) -> (r: ImageModel)
    ensures
        r@ == xai_model(model.deep_view()),
{
    match model {
        Some(name) => ImageModel::Other(name),
        None => ImageModel::Other(String::from_str(XAI_DEFAULT_MODEL)),
    }
}

/// The number of images to ask of the backend for the requested number of batches, and the
/// warning where the request had to be corrected.
pub fn to_xai_batch_size(num_batches: Option<u32>) -> (r: (u8, Option<ValidationIssue>))
    ensures
        r.0 == batch_size_of(num_batches),
        r.1 == batch_size_warning(num_batches),
{
    clamp_batch_size(num_batches)
}

/// A provider for generating images with the hosted API. There is nothing to configure on
/// the level of the provider.
#[derive(Debug, Clone, Copy, PartialEq, Eq, Structural)]
pub struct XAiProvider {}

impl XAiProvider {
    /// What this provider asks of the backend for a request. The backend takes no size.
    pub open spec fn request_for(request: TextToImageRequestView) -> ImageRequestView {
        ImageRequestView {
            model: xai_model(request.model),
            prompt: prompt_text(request.prompt.positive_prompt),
            n: batch_size_of(request.num_batches),
            response_format: ImageResponseFormat::B64Json,
            size: None,
        }
    }

    /// Normalizes a request into what is asked of the backend, and warns where a value had
    /// to be corrected.
    pub fn prepare(&self, request: TextToImageRequest) -> (r: (
        ImageRequest,
        Option<ValidationIssue>,
    ))
        ensures
            r.0@ == Self::request_for(request@),
            r.1 == batch_size_warning(request@.num_batches),
    {
        let (n, warning) = to_xai_batch_size(request.num_batches);
        let image_request = ImageRequest {
            model: to_xai_model(request.model),
            prompt: prompt_or_default(request.prompt.positive_prompt),
            n,
            response_format: ImageResponseFormat::B64Json,
            size: None,
        };
        (image_request, warning)
    }
}

impl vstd::std_specs::convert::FromSpecImpl<&ProviderConfiguration> for XAiProvider {
    open spec fn obeys_from_spec() -> bool {
        true
    }

    open spec fn from_spec(config: &ProviderConfiguration) -> Self {
        XAiProvider {  }
    }
}

impl From<&ProviderConfiguration> for XAiProvider {
    fn from(_config: &ProviderConfiguration) -> (r: Self) {
        XAiProvider {  }
    }
}

} // verus!
