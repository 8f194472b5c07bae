//! The body of a direct text-to-image call.
//! Generally don't use this: use the `queue` module instead.

use vstd::prelude::*;
use vstd::string::*;

verus! {

/// The parameters of a direct text-to-image call.
#[derive(Debug, PartialEq)]
pub struct Txt2ImgRequestBody {
    pub prompt: String,
    pub negative_prompt: String,
    pub steps: u32,
    pub batch_size: u32,
    pub width: u32,
    pub height: u32,
    pub sampler_name: String,
    pub cfg_scale: u32,
}

/// What a [`Txt2ImgRequestBody`] holds.
pub struct Txt2ImgRequestBodyView {
    pub prompt: Seq<char>,
    pub negative_prompt: Seq<char>,
    pub steps: u32,
    pub batch_size: u32,
    pub width: u32,
    pub height: u32,
    pub sampler_name: Seq<char>,
    pub cfg_scale: u32,
}

impl View for Txt2ImgRequestBody {
    type V = Txt2ImgRequestBodyView;

    open spec fn view(&self) -> Txt2ImgRequestBodyView {
        Txt2ImgRequestBodyView {
            prompt: self.prompt@,
            negative_prompt: self.negative_prompt@,
            steps: self.steps,
            batch_size: self.batch_size,
            width: self.width,
            height: self.height,
            sampler_name: self.sampler_name@,
            cfg_scale: self.cfg_scale,
        }
    }
}

impl Default for Txt2ImgRequestBody {
    /// One image of 1024 by 1024 pixels from empty prompts, in six steps of the default
    /// sampler at a CFG scale of two.
    fn default() -> (r: Self)
        ensures
            r@ == (Txt2ImgRequestBodyView {
                prompt: Seq::empty(),
                negative_prompt: Seq::empty(),
                steps: 6,
                batch_size: 1,
                width: 1024,
                height: 1024,
                sampler_name: "Default"@,
                cfg_scale: 2,
            }),
    {
        Txt2ImgRequestBody {
            prompt: String::new(),
            negative_prompt: String::new(),
            steps: 6,
            batch_size: 1,
            width: 1024,
            height: 1024,
            sampler_name: String::from_str("Default"),
            cfg_scale: 2,
        }
    }
}

impl Clone for Txt2ImgRequestBody {
    fn clone(&self) -> (r: Self)
        ensures
            r@ == self@,
    {
        Txt2ImgRequestBody {
            prompt: self.prompt.clone(),
            negative_prompt: self.negative_prompt.clone(),
            steps: self.steps,
            batch_size: self.batch_size,
            width: self.width,
            height: self.height,
            sampler_name: self.sampler_name.clone(),
            cfg_scale: self.cfg_scale,
        }
    }
}

} // verus!
