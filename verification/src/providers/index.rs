//! Implementations common to all providers.

use crate::errors::{
    LvmError, LvmErrorView, ProviderConfigurationError, ProviderConfigurationErrorView,
    ValidationIssue,
};
use crate::parameters::provider::{ProviderConfiguration, ProviderConfigurationView};
use crate::parameters::text_to_image::{TextToImageRequest, TextToImageRequestView};
use crate::providers::automatic1111::api::batches::{
    plan_submissions, SubmissionPlan, SubmissionPlanView,
};
use crate::providers::automatic1111::{Automatic1111Provider, Automatic1111ProviderView};
use crate::providers::openai::{
    batch_size_warning, ImageRequest, ImageRequestView, OpenAiProvider,
};
use crate::providers::xai::XAiProvider;
use vstd::prelude::*;
use vstd::string::*;

verus! {

/// Supported providers, each with its configuration.
#[derive(Debug, PartialEq)]
pub enum LvmProviders {
    OpenAi(ProviderConfiguration),
    Automatic1111(ProviderConfiguration),
    XAi(ProviderConfiguration),
}

/// What an [`LvmProviders`] holds.
pub enum LvmProvidersView {
    OpenAi(ProviderConfigurationView),
    Automatic1111(ProviderConfigurationView),
    XAi(ProviderConfigurationView),
}

impl View for LvmProviders {
    type V = LvmProvidersView;

    open spec fn view(&self) -> LvmProvidersView {
        match self {
            LvmProviders::OpenAi(config) => LvmProvidersView::OpenAi(config@),
            LvmProviders::Automatic1111(config) => LvmProvidersView::Automatic1111(config@),
            LvmProviders::XAi(config) => LvmProvidersView::XAi(config@),
        }
    }
}

impl Default for LvmProviders {
    /// The first of the hosted providers, as it is configured by default.
    fn default() -> (r: Self)
        ensures
            r@ == LvmProvidersView::OpenAi(
                ProviderConfigurationView { base_url: None, api_key_env_var: None },
            ),
    {
        LvmProviders::OpenAi(ProviderConfiguration::default())
    }
}

impl Clone for LvmProviders {
    fn clone(&self) -> (r: Self)
        ensures
            r@ == self@,
    {
        match self {
            LvmProviders::OpenAi(config) => LvmProviders::OpenAi(config.clone()),
            LvmProviders::Automatic1111(config) => LvmProviders::Automatic1111(config.clone()),
            LvmProviders::XAi(config) => LvmProviders::XAi(config.clone()),
        }
    }
}

/// What is to be done for a request, by the provider that was selected for it.
#[derive(Debug, PartialEq)]
pub enum GenerationPlan {
    /// One call to the hosted API.
    OpenAi { request: ImageRequest, warning: Option<ValidationIssue> },
    /// One job per batch at the queue of the self-hosted backend.
    Automatic1111 { provider: Automatic1111Provider, submissions: SubmissionPlan },
    /// One call to the hosted API with the compatible wire format.
    XAi { request: ImageRequest, warning: Option<ValidationIssue> },
}

/// What a [`GenerationPlan`] holds.
pub enum GenerationPlanView {
    OpenAi { request: ImageRequestView, warning: Option<ValidationIssue> },
    Automatic1111 { provider: Automatic1111ProviderView, submissions: SubmissionPlanView },
    XAi { request: ImageRequestView, warning: Option<ValidationIssue> },
}

impl View for GenerationPlan {
    type V = GenerationPlanView;

    open spec fn view(&self) -> GenerationPlanView {
        match self {
            GenerationPlan::OpenAi { request, warning } => GenerationPlanView::OpenAi {
                request: request@,
                warning: *warning,
            },
            GenerationPlan::Automatic1111 {
                provider,
                submissions,
            } => GenerationPlanView::Automatic1111 {
                provider: provider@,
                submissions: submissions@,
            },
            GenerationPlan::XAi { request, warning } => GenerationPlanView::XAi {
                request: request@,
                warning: *warning,
            },
        }
    }
}

impl LvmProvidersView {
    /// The plan for a request: the selected provider alone decides which backend works on
    /// it, and that backend's rules decide what it is asked for.
    pub open spec fn plan(self, request: TextToImageRequestView) -> GenerationPlanView {
        match self {
            LvmProvidersView::OpenAi(_) => GenerationPlanView::OpenAi {
                request: OpenAiProvider::request_for(request),
                warning: batch_size_warning(request.num_batches),
            },
            LvmProvidersView::Automatic1111(config) => GenerationPlanView::Automatic1111 {
                provider: Automatic1111ProviderView::of(config),
                submissions: SubmissionPlanView::of(request),
            },
            LvmProvidersView::XAi(_) => GenerationPlanView::XAi {
                request: XAiProvider::request_for(request),
                warning: batch_size_warning(request.num_batches),
            },
        }
    }
}

impl LvmProviders {
    /// Hands a request to the provider that was selected: makes the provider from its
    /// configuration and lets it say what is to be done. The caller carries the plan out.
    pub fn text_to_image(&self, request: TextToImageRequest) -> (plan: GenerationPlan)
        ensures
            plan@ == self@.plan(request@),
    {
        match self {
            LvmProviders::OpenAi(config) => {
                let provider = OpenAiProvider::from(config);
                let (image_request, warning) = provider.prepare(request);
                GenerationPlan::OpenAi { request: image_request, warning }
            },
            LvmProviders::Automatic1111(config) => {
                let provider = Automatic1111Provider::from(config);
                let submissions = plan_submissions(request);
                GenerationPlan::Automatic1111 { provider, submissions }
            },
            LvmProviders::XAi(config) => {
                let provider = XAiProvider::from(config);
                let (image_request, warning) = provider.prepare(request);
                GenerationPlan::XAi { request: image_request, warning }
            },
        }
    }
}

/// The error for a credential that is missing: it names the variable that was looked up.
pub open spec fn missing_credential(
    variable: Seq<char>,
    configuration: ProviderConfigurationView,
) -> LvmErrorView {
    LvmErrorView::Configuration {
        error: ProviderConfigurationErrorView {
            message: variable + " environment variable not set."@,
            configuration,
        },
    }
}

/// Decides whether a request can go to a hosted backend: it can with the credential that
/// was found under `variable`, and without one the request is refused before anything is
/// sent.
pub fn require_credential(
    variable: &str,
    value: Option<String>,
    configuration: &ProviderConfiguration,
) -> (r: Result<String, LvmError>)
    ensures
        match value {
            Some(key) => r matches Ok(found) && found@ == key@,
            None => r matches Err(error) && error@ == missing_credential(
                variable@,
                configuration@,
            ),
        },
{
    match value {
        Some(key) => Ok(key),
        None => {
            let mut message = String::from_str(variable);
            message.append(" environment variable not set.");
            Err(
                LvmError::Configuration {
                    error: ProviderConfigurationError {
                        message,
                        configuration: configuration.clone(),
                    },
                },
            )
        },
    }
}

} // verus!
