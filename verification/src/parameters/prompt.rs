//! The text that a generation request carries.

use crate::text::copy_optional_text;
use vstd::prelude::*;

verus! {

/// A prompt for an image generation request.
#[derive(Debug, PartialEq)]
pub struct ImagePrompt {
    /// The positive prompt to use for image generation.
    pub positive_prompt: Option<String>,
    /// The negative prompt to use for image generation. Not supported by all providers or models.
    pub negative_prompt: Option<String>,
}

/// What an [`ImagePrompt`] holds.
pub struct ImagePromptView {
    pub positive_prompt: Option<Seq<char>>,
    pub negative_prompt: Option<Seq<char>>,
}

impl View for ImagePrompt {
    type V = ImagePromptView;

    open spec fn view(&self) -> ImagePromptView {
        ImagePromptView {
            positive_prompt: self.positive_prompt.deep_view(),
            negative_prompt: self.negative_prompt.deep_view(),
        }
    }
}

impl Default for ImagePrompt {
    /// A prompt with neither text set.
    fn default() -> (r: Self)
        ensures
            r@ == (ImagePromptView { positive_prompt: None, negative_prompt: None }),
    {
        ImagePrompt { positive_prompt: None, negative_prompt: None }
    }
}

impl Clone for ImagePrompt {
    fn clone(&self) -> (r: Self)
        ensures
            r@ == self@,
    {
        ImagePrompt {
            positive_prompt: copy_optional_text(&self.positive_prompt),
            negative_prompt: copy_optional_text(&self.negative_prompt),
        }
    }
}

} // verus!
