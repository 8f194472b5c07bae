//! A request to generate images from text.

use crate::parameters::prompt::{ImagePrompt, ImagePromptView};
use crate::text::copy_optional_text;
use vstd::prelude::*;

verus! {

/// Additional parameters used by some providers.
#[derive(Debug, PartialEq)]
pub struct TextToImageRequestExtendedParameters {
    /// How many images to generate per batch.
    pub batch_size: Option<u32>,
    /// The number of steps to use for image generation.
    pub steps: Option<u32>,
    /// The name of the sampler.
    pub sampler_name: Option<String>,
    /// The CFG scale, as the bit pattern of a binary64 number.
    pub cfg_scale: Option<u64>,
    /// The name of the checkpoint to load.
    pub checkpoint: Option<String>,
    /// The name of the VAE model.
    pub vae: Option<String>,
    /// The seed to use for image generation.
    pub seed: Option<u32>,
    /// Where the backend reports the finished task.
    pub callback_url: Option<String>,
}

/// What a [`TextToImageRequestExtendedParameters`] holds.
pub struct TextToImageRequestExtendedParametersView {
    pub batch_size: Option<u32>,
    pub steps: Option<u32>,
    pub sampler_name: Option<Seq<char>>,
    pub cfg_scale: Option<u64>,
    pub checkpoint: Option<Seq<char>>,
    pub vae: Option<Seq<char>>,
    pub seed: Option<u32>,
    pub callback_url: Option<Seq<char>>,
}

impl View for TextToImageRequestExtendedParameters {
    type V = TextToImageRequestExtendedParametersView;

    open spec fn view(&self) -> TextToImageRequestExtendedParametersView {
        TextToImageRequestExtendedParametersView {
            batch_size: self.batch_size,
            steps: self.steps,
            sampler_name: self.sampler_name.deep_view(),
            cfg_scale: self.cfg_scale,
            checkpoint: self.checkpoint.deep_view(),
            vae: self.vae.deep_view(),
            seed: self.seed,
            callback_url: self.callback_url.deep_view(),
        }
    }
}

impl DeepView for TextToImageRequestExtendedParameters {
    type V = TextToImageRequestExtendedParametersView;

    open spec fn deep_view(&self) -> TextToImageRequestExtendedParametersView {
        self@
    }
}

impl TextToImageRequestExtendedParametersView {
    /// The extended parameters with nothing set.
    pub open spec fn unset() -> Self {
        TextToImageRequestExtendedParametersView {
            batch_size: None,
            steps: None,
            sampler_name: None,
            cfg_scale: None,
            checkpoint: None,
            vae: None,
            seed: None,
            callback_url: None,
        }
    }
}

impl Default for TextToImageRequestExtendedParameters {
    /// Extended parameters with nothing set.
    fn default() -> (r: Self)
        ensures
            r@ == TextToImageRequestExtendedParametersView::unset(),
    {
        TextToImageRequestExtendedParameters {
            batch_size: None,
            steps: None,
            sampler_name: None,
            cfg_scale: None,
            checkpoint: None,
            vae: None,
            seed: None,
            callback_url: None,
        }
    }
}

impl Clone for TextToImageRequestExtendedParameters {
    fn clone(&self) -> (r: Self)
        ensures
            r@ == self@,
    {
        TextToImageRequestExtendedParameters {
            batch_size: self.batch_size,
            steps: self.steps,
            sampler_name: copy_optional_text(&self.sampler_name),
            cfg_scale: self.cfg_scale,
            checkpoint: copy_optional_text(&self.checkpoint),
            vae: copy_optional_text(&self.vae),
            seed: self.seed,
            callback_url: copy_optional_text(&self.callback_url),
        }
    }
}

/// A request to generate an image from text.
#[derive(Debug, PartialEq)]
pub struct TextToImageRequest {
    pub prompt: ImagePrompt,
    /// The model to use for image generation.
    pub model: Option<String>,
    /// The height of the image in pixels.
    pub height: Option<u32>,
    /// The width of the image in pixels.
    pub width: Option<u32>,
    /// The number of image batches to process. Most providers do not support multi-image
    /// batches, so for them this is equivalent to the number of images.
    pub num_batches: Option<u32>,
    pub extended: Option<TextToImageRequestExtendedParameters>,
}

/// What a [`TextToImageRequest`] holds.
pub struct TextToImageRequestView {
    pub prompt: ImagePromptView,
    pub model: Option<Seq<char>>,
    pub height: Option<u32>,
    pub width: Option<u32>,
    pub num_batches: Option<u32>,
    pub extended: Option<TextToImageRequestExtendedParametersView>,
}

impl View for TextToImageRequest {
    type V = TextToImageRequestView;

    open spec fn view(&self) -> TextToImageRequestView {
        TextToImageRequestView {
            prompt: self.prompt@,
            model: self.model.deep_view(),
            height: self.height,
            width: self.width,
            num_batches: self.num_batches,
            extended: self.extended.deep_view(),
        }
    }
}

impl TextToImageRequestView {
    /// The number of batches asked for: one where the request names none.
    pub open spec fn batches(self) -> nat {
        match self.num_batches {
            Some(n) => n as nat,
            None => 1,
        }
    }
}

impl Default for TextToImageRequest {
    /// A request with nothing set.
    fn default() -> (r: Self)
        ensures
            r@ == (TextToImageRequestView {
                prompt: ImagePromptView { positive_prompt: None, negative_prompt: None },
                model: None,
                height: None,
                width: None,
                num_batches: None,
                extended: None,
            }),
    {
        TextToImageRequest {
            prompt: ImagePrompt::default(),
            model: None,
            height: None,
            width: None,
            num_batches: None,
            extended: None,
        }
    }
}

impl Clone for TextToImageRequest {
    fn clone(&self) -> (r: Self)
        ensures
            r@ == self@,
    {
        let extended = match &self.extended {
            Some(e) => Some(e.clone()),
            None => None,
        };
        TextToImageRequest {
            prompt: self.prompt.clone(),
            model: copy_optional_text(&self.model),
            height: self.height,
            width: self.width,
            num_batches: self.num_batches,
            extended,
        }
    }
}

} // verus!
