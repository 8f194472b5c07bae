//! Endpoints and types for interacting with the Stable Diffusion API.

pub mod batches;
pub mod config;
pub mod job;
pub mod model;
pub mod poll;
pub mod queue;
pub mod txt2img;

use crate::providers::automatic1111::api::txt2img::{Txt2ImgRequestBody, Txt2ImgRequestBodyView};
use vstd::prelude::*;

verus! {

/// Types of requests that can be sent to the Stable Diffusion API to generate images.
/// Right now only supports Txt2Img requests.
#[derive(Debug, PartialEq)]
pub enum RequestBody {
    Txt2Img(Txt2ImgRequestBody),
}

/// What a [`RequestBody`] holds.
pub enum RequestBodyView {
    Txt2Img(Txt2ImgRequestBodyView),
}

impl View for RequestBody {
    type V = RequestBodyView;

    open spec fn view(&self) -> RequestBodyView {
        match self {
            RequestBody::Txt2Img(body) => RequestBodyView::Txt2Img(body@),
        }
    }
}

impl Clone for RequestBody {
    fn clone(&self) -> (r: Self)
        ensures
            r@ == self@,
    {
        match self {
            RequestBody::Txt2Img(body) => RequestBody::Txt2Img(body.clone()),
        }
    }
}

} // verus!
