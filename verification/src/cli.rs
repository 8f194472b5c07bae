//! The selection that a command line makes: a provider, its configuration and a request.

use crate::parameters::provider::{ProviderConfiguration, ProviderConfigurationView};
use crate::parameters::text_to_image::{TextToImageRequest, TextToImageRequestView};
use crate::providers::index::{LvmProviders, LvmProvidersView};
use vstd::prelude::*;

verus! {

/// The providers that can be selected.
#[derive(Debug, Clone, Copy, PartialEq, Eq, Structural)]
pub enum CliLvmProviders {
    OpenAi,
    Automatic1111,
    XAi,
}

impl CliLvmProviders {
    /// The name under which each provider is selected.
    pub open spec fn spelled(self) -> Seq<char> {
        match self {
            CliLvmProviders::OpenAi => "open-ai"@,
            CliLvmProviders::Automatic1111 => "automatic1111"@,
            CliLvmProviders::XAi => "x-ai"@,
        }
    }

    /// The name under which this provider is selected.
    pub fn name(&self) -> (r: &'static str)
        ensures
            r@ == self.spelled(),
    {
        match self {
            CliLvmProviders::OpenAi => "open-ai",
            CliLvmProviders::Automatic1111 => "automatic1111",
            CliLvmProviders::XAi => "x-ai",
        }
    }

    /// The selected provider with this configuration.
    pub open spec fn configured(
        self,
        configuration: ProviderConfigurationView,
    ) -> LvmProvidersView {
        match self {
            CliLvmProviders::OpenAi => LvmProvidersView::OpenAi(configuration),
            CliLvmProviders::Automatic1111 => LvmProvidersView::Automatic1111(configuration),
            CliLvmProviders::XAi => LvmProvidersView::XAi(configuration),
        }
    }
}

impl Default for CliLvmProviders {
    /// The provider that is used where none is selected.
    fn default() -> (r: Self)
        ensures
            r == CliLvmProviders::OpenAi,
    {
        CliLvmProviders::OpenAi
    }
}

/// What a command line selects.
#[derive(Debug, PartialEq)]
pub struct Cli {
    /// The provider to use.
    pub provider: CliLvmProviders,
    /// Configuration for the provider.
    pub provider_configuration: ProviderConfiguration,
    /// The request to send to the provider.
    pub request: TextToImageRequest,
}

/// What a [`Cli`] holds.
pub struct CliView {
    pub provider: CliLvmProviders,
    pub provider_configuration: ProviderConfigurationView,
    pub request: TextToImageRequestView,
}

impl View for Cli {
    type V = CliView;

    open spec fn view(&self) -> CliView {
        CliView {
            provider: self.provider,
            provider_configuration: self.provider_configuration@,
            request: self.request@,
        }
    }
}

impl Cli {
    /// The selected provider, with the configuration that was given for it.
    pub fn get_provider(&self) -> (r: LvmProviders)
        ensures
            r@ == self@.provider.configured(self@.provider_configuration),
    {
        match self.provider {
            CliLvmProviders::OpenAi => LvmProviders::OpenAi(self.provider_configuration.clone()),
            CliLvmProviders::Automatic1111 => LvmProviders::Automatic1111(
                self.provider_configuration.clone(),
            ),
            CliLvmProviders::XAi => LvmProviders::XAi(self.provider_configuration.clone()),
        }
    }
}

} // verus!
