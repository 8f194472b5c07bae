//! The self-hosted backend, which works as a queue of jobs.

pub mod api;
pub mod provider;

use crate::parameters::provider::{ProviderConfiguration, ProviderConfigurationView};
use vstd::prelude::*;
use vstd::string::*;

verus! {

/// Where the backend is found unless the configuration says otherwise.
pub const DEFAULT_BASE_URL: &'static str = "http://localhost:7860";

/// A provider for generating images with the Automatic1111 instance.
/// These are the fields common to all requests to the Automatic1111 provider.
#[derive(Debug, PartialEq)]
pub struct Automatic1111Provider {
    pub base_url: String,
}

/// What an [`Automatic1111Provider`] holds.
pub struct Automatic1111ProviderView {
    pub base_url: Seq<char>,
}

impl View for Automatic1111Provider {
    type V = Automatic1111ProviderView;

    open spec fn view(&self) -> Automatic1111ProviderView {
        Automatic1111ProviderView { base_url: self.base_url@ }
    }
}

impl Automatic1111ProviderView {
    /// The provider that a configuration stands for: the one at the configured base URL, or
    /// at the default one where none is configured.
    pub open spec fn of(config: ProviderConfigurationView) -> Automatic1111ProviderView {
        Automatic1111ProviderView {
            base_url: match config.base_url {
                Some(url) => url,
                None => DEFAULT_BASE_URL@,
            },
        }
    }

    /// The address of an endpoint: the base URL with the endpoint's path behind it.
    pub open spec fn endpoint(self, path: Seq<char>) -> Seq<char> {
        self.base_url + path
    }

    /// The address at which the status of a task is found.
    pub open spec fn task_endpoint(self, task_id: Seq<char>) -> Seq<char> {
        self.base_url + "/agent-scheduler/v1/task/"@ + task_id
    }

    /// The address at which the results of a task are found.
    pub open spec fn task_results_endpoint(self, task_id: Seq<char>) -> Seq<char> {
        self.base_url + "/agent-scheduler/v1/task/"@ + task_id + "/results"@
    }
}

impl Default for Automatic1111Provider {
    /// The provider at the default base URL.
    fn default() -> (r: Self)
        ensures
            r@.base_url == DEFAULT_BASE_URL@,
    {
        Automatic1111Provider { base_url: String::from_str(DEFAULT_BASE_URL) }
    }
}

impl Clone for Automatic1111Provider {
    fn clone(&self) -> (r: Self)
        ensures
            r@ == self@,
    {
        Automatic1111Provider { base_url: self.base_url.clone() }
    }
}

impl vstd::std_specs::convert::FromSpecImpl<&ProviderConfiguration> for Automatic1111Provider {
    /// A text that is made anew has no name in a specification, so the conversion is
    /// stated on `from` itself, over the view of what it returns.
    open spec fn obeys_from_spec() -> bool {
        false
    }

    open spec fn from_spec(config: &ProviderConfiguration) -> Self {
        arbitrary()
    }
}

impl From<&ProviderConfiguration> for Automatic1111Provider {
    /// Create a new provider from a configuration, with the default base URL where the
    /// configuration has none.
    fn from(config: &ProviderConfiguration) -> (r: Self)
        ensures
            r@ == Automatic1111ProviderView::of(config@),
    {
        Automatic1111Provider {
            base_url: match &config.base_url {
                Some(url) => url.clone(),
                None => String::from_str(DEFAULT_BASE_URL),
            },
        }
    }
}

impl Automatic1111Provider {
    /// The address of the endpoint with this path.
    pub fn endpoint_url(&self, path: &str) -> (r: String)
        ensures
            r@ == self@.endpoint(path@),
    {
        let mut url = self.base_url.clone();
        url.append(path);
        url
    }

    /// The address to post a new image generation task to.
    pub fn queue_url(&self) -> (r: String)
        ensures
            r@ == self@.endpoint("/agent-scheduler/v1/queue/txt2img"@),
    {
        self.endpoint_url("/agent-scheduler/v1/queue/txt2img")
    }

    /// The address at which the status of a task is found.
    pub fn task_url(&self, task_id: &str) -> (r: String)
        ensures
            r@ == self@.task_endpoint(task_id@),
    {
        let mut url = self.endpoint_url("/agent-scheduler/v1/task/");
        url.append(task_id);
        url
    }

    /// The address at which the results of a task are found.
    pub fn task_results_url(&self, task_id: &str) -> (r: String)
        ensures
            r@ == self@.task_results_endpoint(task_id@),
    {
        let mut url = self.task_url(task_id);
        url.append("/results");
        url
    }

    /// The address at which the current configuration is read and changed.
    pub fn options_url(&self) -> (r: String)
        ensures
            r@ == self@.endpoint("/sdapi/v1/options"@),
    {
        self.endpoint_url("/sdapi/v1/options")
    }

    /// The address at which the available models are listed.
    pub fn models_url(&self) -> (r: String)
        ensures
            r@ == self@.endpoint("/sdapi/v1/sd-models"@),
    {
        self.endpoint_url("/sdapi/v1/sd-models")
    }
}

} // verus!
