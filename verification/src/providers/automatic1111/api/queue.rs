//! Send image generation tasks to the queue.

use crate::errors::{ValidationIssue};
use crate::parameters::text_to_image::{TextToImageRequest, TextToImageRequestView};
use crate::text::copy_optional_text;
use vstd::prelude::*;

verus! {

/// Settings of the server that a task overrides while it runs. None can be set yet.
#[derive(Debug, Clone, Copy, PartialEq, Eq, Structural)]
pub struct OverrideSettings {}

/// Request body for starting a new image generation task. A field that is `None` is left
/// out of the body.
#[derive(Debug, PartialEq)]
pub struct QueueRequestBody {
    pub prompt: Option<String>,
    pub negative_prompt: Option<String>,
    pub seed: Option<u32>,
    pub batch_size: Option<u32>,
    pub steps: Option<u32>,
    pub width: Option<u32>,
    pub height: Option<u32>,
    pub sampler_name: Option<String>,
    /// The CFG scale, as the bit pattern of a finite binary64 number.
    pub cfg_scale: Option<u64>,
    pub override_settings: Option<OverrideSettings>,
    pub script_name: String,
    pub checkpoint: Option<String>,
    pub vae: Option<String>,
    pub callback_url: Option<String>,
}

/// What a [`QueueRequestBody`] holds.
pub struct QueueRequestBodyView {
    pub prompt: Option<Seq<char>>,
    pub negative_prompt: Option<Seq<char>>,
    pub seed: Option<u32>,
    pub batch_size: Option<u32>,
    pub steps: Option<u32>,
    pub width: Option<u32>,
    pub height: Option<u32>,
    pub sampler_name: Option<Seq<char>>,
    pub cfg_scale: Option<u64>,
    pub override_settings: Option<OverrideSettings>,
    pub script_name: Seq<char>,
    pub checkpoint: Option<Seq<char>>,
    pub vae: Option<Seq<char>>,
    pub callback_url: Option<Seq<char>>,
}

impl View for QueueRequestBody {
    type V = QueueRequestBodyView;

    open spec fn view(&self) -> QueueRequestBodyView {
        QueueRequestBodyView {
            prompt: self.prompt.deep_view(),
            negative_prompt: self.negative_prompt.deep_view(),
            seed: self.seed,
            batch_size: self.batch_size,
            steps: self.steps,
            width: self.width,
            height: self.height,
            sampler_name: self.sampler_name.deep_view(),
            cfg_scale: self.cfg_scale,
            override_settings: self.override_settings,
            script_name: self.script_name@,
            checkpoint: self.checkpoint.deep_view(),
            vae: self.vae.deep_view(),
            callback_url: self.callback_url.deep_view(),
        }
    }
}

/// Whether a bit pattern is that of a finite binary64 number: neither an infinity nor a
/// NaN, which are the patterns whose eleven exponent bits are all set.
pub open spec fn is_finite_binary64(bits: u64) -> bool {
    (bits >> 52) & 0x7ff != 0x7ff
}

/// The scale as it goes on the wire: a finite number, or nothing.
pub open spec fn wire_scale(cfg_scale: Option<u64>) -> Option<u64> {
    match cfg_scale {
        Some(bits) => if is_finite_binary64(bits) {
            Some(bits)
        } else {
            None
        },
        None => None,
    }
}

/// The warning that a scale calls for: one for a scale that is no finite number.
pub open spec fn scale_warning(cfg_scale: Option<u64>) -> Option<ValidationIssue> {
    match cfg_scale {
        Some(bits) => if is_finite_binary64(bits) {
            None
        } else {
            Some(ValidationIssue::CfgScale { bits })
        },
        None => None,
    }
}

impl QueueRequestBodyView {
    /// The body with nothing set.
    pub open spec fn unset() -> QueueRequestBodyView {
        QueueRequestBodyView {
            prompt: None,
            negative_prompt: None,
            seed: None,
            batch_size: None,
            steps: None,
            width: None,
            height: None,
            sampler_name: None,
            cfg_scale: None,
            override_settings: None,
            script_name: Seq::empty(),
            checkpoint: None,
            vae: None,
            callback_url: None,
        }
    }

    /// The body that a request is sent as. The prompts and the dimensions are taken over;
    /// so are, where the request has extended parameters, the batch size, the steps, the
    /// sampler, the checkpoint, the VAE, the callback URL and a finite CFG scale. The seed,
    /// the override settings and the script name stay unset.
    pub open spec fn of(request: TextToImageRequestView) -> QueueRequestBodyView {
        let plain = QueueRequestBodyView {
            prompt: request.prompt.positive_prompt,
            negative_prompt: request.prompt.negative_prompt,
            width: request.width,
            height: request.height,
            ..QueueRequestBodyView::unset()
        };
        match request.extended {
            Some(extended) => QueueRequestBodyView {
                batch_size: extended.batch_size,
                steps: extended.steps,
                sampler_name: extended.sampler_name,
                cfg_scale: wire_scale(extended.cfg_scale),
                checkpoint: extended.checkpoint,
                vae: extended.vae,
                callback_url: extended.callback_url,
                ..plain
            },
            None => plain,
        }
    }

    /// The warning that the normalization of a request calls for.
    pub open spec fn warning_of(request: TextToImageRequestView) -> Option<ValidationIssue> {
        match request.extended {
            Some(extended) => scale_warning(extended.cfg_scale),
            None => None,
        }
    }

    /// The same body for a single batch.
    pub open spec fn single_batch(self) -> QueueRequestBodyView {
        QueueRequestBodyView { batch_size: Some(1u32), ..self }
    }
}

/// Whether a bit pattern is that of a finite binary64 number.
pub fn is_finite(bits: u64) -> (r: bool)
    ensures
        r == is_finite_binary64(bits),
{
    (bits >> 52) & 0x7ff != 0x7ff
}

/// Convert a CFG scale, given by its bit pattern, to the number that goes on the wire.
/// A scale that is not finite has no such number.
pub fn cfg_scale_to_number(bits: u64) -> (r: Option<u64>)
    ensures
        r == wire_scale(Some(bits)),
{
    if is_finite(bits) {
        Some(bits)
    } else {
        None
    }
}

impl Default for QueueRequestBody {
    /// The body with nothing set.
    fn default() -> (r: Self)
        ensures
            r@ == QueueRequestBodyView::unset(),
    {
        QueueRequestBody {
            prompt: None,
            negative_prompt: None,
            seed: None,
            batch_size: None,
            steps: None,
            width: None,
            height: None,
            sampler_name: None,
            cfg_scale: None,
            override_settings: None,
            script_name: String::new(),
            checkpoint: None,
            vae: None,
            callback_url: None,
        }
    }
}

impl Clone for QueueRequestBody {
    fn clone(&self) -> (r: Self)
        ensures
            r@ == self@,
    {
        QueueRequestBody {
            prompt: copy_optional_text(&self.prompt),
            negative_prompt: copy_optional_text(&self.negative_prompt),
            seed: self.seed,
            batch_size: self.batch_size,
            steps: self.steps,
            width: self.width,
            height: self.height,
            sampler_name: copy_optional_text(&self.sampler_name),
            cfg_scale: self.cfg_scale,
            override_settings: self.override_settings,
            script_name: self.script_name.clone(),
            checkpoint: copy_optional_text(&self.checkpoint),
            vae: copy_optional_text(&self.vae),
            callback_url: copy_optional_text(&self.callback_url),
        }
    }
}

impl QueueRequestBody {
    /// Normalizes a request into the body that the queue takes, and says what had to be
    /// dropped on the way: a CFG scale that is no finite number is left out, with a warning.
    pub fn normalize(request: TextToImageRequest) -> (r: (
        QueueRequestBody,
        Option<ValidationIssue>,
    ))
        ensures
            r.0@ == QueueRequestBodyView::of(request@),
            r.1 == QueueRequestBodyView::warning_of(request@),
    {
        let mut queue_request = QueueRequestBody::default();
        queue_request.prompt = request.prompt.positive_prompt;
        queue_request.negative_prompt = request.prompt.negative_prompt;
        queue_request.width = request.width;
        queue_request.height = request.height;
        let mut warning: Option<ValidationIssue> = None;
        if let Some(extended_params) = request.extended {
            queue_request.batch_size = extended_params.batch_size;
            queue_request.steps = extended_params.steps;
            queue_request.sampler_name = extended_params.sampler_name;
            if let Some(bits) = extended_params.cfg_scale {
                queue_request.cfg_scale = cfg_scale_to_number(bits);
                if queue_request.cfg_scale.is_none() {
                    warning = Some(ValidationIssue::CfgScale { bits });
                }
            }
            queue_request.checkpoint = extended_params.checkpoint;
            queue_request.vae = extended_params.vae;
            queue_request.callback_url = extended_params.callback_url;
        }
        (queue_request, warning)
    }

    /// The same body for a single batch: every submission asks for one.
    pub fn single_batch(self) -> (r: QueueRequestBody)
        ensures
            r@ == self@.single_batch(),
    {
        let mut body = self;
        body.batch_size = Some(1);
        body
    }
}

impl vstd::std_specs::convert::FromSpecImpl<TextToImageRequest> for QueueRequestBody {
    /// A text that is made anew has no name in a specification, so the conversion is
    /// stated on `from` itself, over the view of what it returns.
    open spec fn obeys_from_spec() -> bool {
        false
    }

    open spec fn from_spec(request: TextToImageRequest) -> Self {
        arbitrary()
    }
}

impl From<TextToImageRequest> for QueueRequestBody {
    /// The body that a request is sent as. What [`QueueRequestBody::normalize`] warns of is
    /// dropped in silence here.
    fn from(request: TextToImageRequest) -> (r: Self)
        ensures
            r@ == QueueRequestBodyView::of(request@),
    {
        QueueRequestBody::normalize(request).0
    }
}

} // verus!
