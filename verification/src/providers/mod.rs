//! The backends that can execute a request.

pub mod automatic1111;
pub mod index;
pub mod openai;
pub mod xai;

use crate::text::copy_optional_text;
use vstd::prelude::*;

verus! {

/// Settings of a provider that hold for every request it gets.
#[derive(Debug, PartialEq)]
pub struct LvmProviderConfig {
    pub model: String,
    pub height: u32,
    pub width: u32,
    pub num_images: u8,
    pub base_url: Option<String>,
    pub steps: Option<u32>,
    pub sampler_name: Option<String>,
    /// The CFG scale, as the bit pattern of a binary64 number.
    pub cfg_scale: Option<u64>,
}

/// What an [`LvmProviderConfig`] holds.
pub struct LvmProviderConfigView {
    pub model: Seq<char>,
    pub height: u32,
    pub width: u32,
    pub num_images: u8,
    pub base_url: Option<Seq<char>>,
    pub steps: Option<u32>,
    pub sampler_name: Option<Seq<char>>,
    pub cfg_scale: Option<u64>,
}

impl View for LvmProviderConfig {
    type V = LvmProviderConfigView;

    open spec fn view(&self) -> LvmProviderConfigView {
        LvmProviderConfigView {
            model: self.model@,
            height: self.height,
            width: self.width,
            num_images: self.num_images,
            base_url: self.base_url.deep_view(),
            steps: self.steps,
            sampler_name: self.sampler_name.deep_view(),
            cfg_scale: self.cfg_scale,
        }
    }
}

impl Default for LvmProviderConfig {
    /// One image of 1024 by 1024 pixels from an unnamed model; the rest is left to the
    /// provider.
    fn default() -> (r: Self)
        ensures
            r@ == (LvmProviderConfigView {
                model: Seq::empty(),
                height: 1024,
                width: 1024,
                num_images: 1,
                base_url: None,
                steps: None,
                sampler_name: None,
                cfg_scale: None,
            }),
    {
        LvmProviderConfig {
            model: String::new(),
            height: 1024,
            width: 1024,
            num_images: 1,
            base_url: None,
            steps: None,
            sampler_name: None,
            cfg_scale: None,
        }
    }
}

impl Clone for LvmProviderConfig {
    fn clone(&self) -> (r: Self)
        ensures
            r@ == self@,
    {
        LvmProviderConfig {
            model: self.model.clone(),
            height: self.height,
            width: self.width,
            num_images: self.num_images,
            base_url: copy_optional_text(&self.base_url),
            steps: self.steps,
            sampler_name: copy_optional_text(&self.sampler_name),
            cfg_scale: self.cfg_scale,
        }
    }
}

} // verus!
