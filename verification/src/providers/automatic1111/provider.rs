//! A local Stable Diffusion instance, known by its URL.

use crate::text::{strip_trailing, trim_trailing};
use vstd::prelude::*;
use vstd::string::*;

verus! {

/// A provider for generating images with a local Stable Diffusion instance.
#[derive(Debug, PartialEq)]
pub struct StableDiffusionXLProvider {
    /// The URL for the local Stable Diffusion instance.
    pub url: String,
}

impl View for StableDiffusionXLProvider {
    type V = Seq<char>;

    /// The URL as it was given.
    open spec fn view(&self) -> Seq<char> {
        self.url@
    }
}

impl Default for StableDiffusionXLProvider {
    /// The instance on this machine.
    fn default() -> (r: Self)
        ensures
            r@ == "http://localhost:7860"@,
    {
        StableDiffusionXLProvider { url: String::from_str("http://localhost:7860") }
    }
}

impl StableDiffusionXLProvider {
    /// Get the sanitized URL for the local Stable Diffusion instance: the URL without any
    /// trailing slash.
    pub fn get_url(&self) -> (r: String)
        ensures
            r@ == strip_trailing(self@, '/'),
    {
        trim_trailing(self.url.as_str(), '/').to_owned()
    }
}

/// A sanitized URL does not end in a slash, and a URL that does not end in one is left as
/// it is.
pub proof fn lemma_sanitized_url(url: Seq<char>)
    ensures
        strip_trailing(url, '/').len() > 0 ==> strip_trailing(url, '/').last() != '/',
        strip_trailing(url, '/').is_prefix_of(url),
        url.len() > 0 && url.last() != '/' ==> strip_trailing(url, '/') == url,
    decreases url.len(),
{
    if url.len() > 0 && url.last() == '/' {
        lemma_sanitized_url(url.drop_last());
    }
}

} // verus!
