//! Parameters of a request after every default has been filled in.

use crate::text::copy_optional_text;
use vstd::prelude::*;

verus! {

/// Additional parameters used by some providers.
#[derive(Debug, PartialEq)]
pub struct RequestParametersExtended {
    pub base_url: String,
    pub batch_size: Option<u32>,
    pub steps: Option<u32>,
    pub sampler_name: Option<String>,
    /// The CFG scale, as the bit pattern of a binary64 number.
    pub cfg_scale: Option<u64>,
    pub checkpoint: Option<String>,
    pub vae: Option<String>,
    pub callback_url: Option<String>,
}

/// What a [`RequestParametersExtended`] holds.
pub struct RequestParametersExtendedView {
    pub base_url: Seq<char>,
    pub batch_size: Option<u32>,
    pub steps: Option<u32>,
    pub sampler_name: Option<Seq<char>>,
    pub cfg_scale: Option<u64>,
    pub checkpoint: Option<Seq<char>>,
    pub vae: Option<Seq<char>>,
    pub callback_url: Option<Seq<char>>,
}

impl View for RequestParametersExtended {
    type V = RequestParametersExtendedView;

    open spec fn view(&self) -> RequestParametersExtendedView {
        RequestParametersExtendedView {
            base_url: self.base_url@,
            batch_size: self.batch_size,
            steps: self.steps,
            sampler_name: self.sampler_name.deep_view(),
            cfg_scale: self.cfg_scale,
            checkpoint: self.checkpoint.deep_view(),
            vae: self.vae.deep_view(),
            callback_url: self.callback_url.deep_view(),
        }
    }
}

impl DeepView for RequestParametersExtended {
    type V = RequestParametersExtendedView;

    open spec fn deep_view(&self) -> RequestParametersExtendedView {
        self@
    }
}

impl Clone for RequestParametersExtended {
    fn clone(&self) -> (r: Self)
        ensures
            r@ == self@,
    {
        RequestParametersExtended {
            base_url: self.base_url.clone(),
            batch_size: self.batch_size,
            steps: self.steps,
            sampler_name: copy_optional_text(&self.sampler_name),
            cfg_scale: self.cfg_scale,
            checkpoint: copy_optional_text(&self.checkpoint),
            vae: copy_optional_text(&self.vae),
            callback_url: copy_optional_text(&self.callback_url),
        }
    }
}

/// Parameters common to all types of image generation requests.
#[derive(Debug, PartialEq)]
pub struct RequestParameters {
    /// The name of the model to use.
    pub model: String,
    /// The height in pixels of the generated image.
    pub height: u32,
    /// The width in pixels of the generated image.
    pub width: u32,
    /// How many batches of images to generate.
    /// For most providers, each batch will contain one image,
    /// so this is equivalent to the number of images to generate.
    pub num_batches: u32,
    /// Additional parameters used by some providers.
    pub extended: Option<RequestParametersExtended>,
}

/// What a [`RequestParameters`] holds.
pub struct RequestParametersView {
    pub model: Seq<char>,
    pub height: u32,
    pub width: u32,
    pub num_batches: u32,
    pub extended: Option<RequestParametersExtendedView>,
}

impl View for RequestParameters {
    type V = RequestParametersView;

    open spec fn view(&self) -> RequestParametersView {
        RequestParametersView {
            model: self.model@,
            height: self.height,
            width: self.width,
            num_batches: self.num_batches,
            extended: self.extended.deep_view(),
        }
    }
}

impl Default for RequestParameters {
    /// One batch of 1024 by 1024 pixels from an unnamed model.
    fn default() -> (r: Self)
        ensures
            r@ == (RequestParametersView {
                model: Seq::empty(),
                height: 1024,
                width: 1024,
                num_batches: 1,
                extended: None,
            }),
    {
        RequestParameters {
            model: String::new(),
            height: 1024,
            width: 1024,
            num_batches: 1,
            extended: None,
        }
    }
}

impl Clone for RequestParameters {
    fn clone(&self) -> (r: Self)
        ensures
            r@ == self@,
    {
        let extended = match &self.extended {
            Some(e) => Some(e.clone()),
            None => None,
        };
        RequestParameters {
            model: self.model.clone(),
            height: self.height,
            width: self.width,
            num_batches: self.num_batches,
            extended,
        }
    }
}

} // verus!
