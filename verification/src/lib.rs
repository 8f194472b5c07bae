//! A unified client for text-to-image generation across several backends.
//!
//! One request schema serves three backends. Two of them answer in a single call; the
//! third is a queue of jobs that are submitted, polled and fetched. This library holds
//! every decision of that work: how a request is normalized for each backend, which jobs
//! come of the submissions, what each event of the polling leads to, and what the outcomes
//! add up to. The caller owns the connection and the clock.

pub mod cli;
pub mod errors;
pub mod images;
pub mod parameters;
pub mod providers;
pub mod text;

pub use errors::LvmError;
pub use images::LvmImage;
pub use parameters::prompt::ImagePrompt;
pub use parameters::provider::ProviderConfiguration;
pub use parameters::text_to_image::{TextToImageRequest, TextToImageRequestExtendedParameters};
pub use providers::index::LvmProviders;
