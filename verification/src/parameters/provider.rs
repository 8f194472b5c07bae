//! Connection and credential settings of a provider.

use crate::text::copy_optional_text;
use vstd::prelude::*;

verus! {

/// Parameters common to most providers.
#[derive(Debug, PartialEq)]
pub struct ProviderConfiguration {
    /// The base URL of the provider.
    pub base_url: Option<String>,
    /// The name of the API key environment variable.
    pub api_key_env_var: Option<String>,
}

/// What a [`ProviderConfiguration`] holds.
pub struct ProviderConfigurationView {
    pub base_url: Option<Seq<char>>,
    pub api_key_env_var: Option<Seq<char>>,
}

impl View for ProviderConfiguration {
    type V = ProviderConfigurationView;

    open spec fn view(&self) -> ProviderConfigurationView {
        ProviderConfigurationView {
            base_url: self.base_url.deep_view(),
            api_key_env_var: self.api_key_env_var.deep_view(),
        }
    }
}

impl Default for ProviderConfiguration {
    /// A configuration that leaves the provider's own defaults in force.
    fn default() -> (r: Self)
        ensures
            r@ == (ProviderConfigurationView { base_url: None, api_key_env_var: None }),
    {
        ProviderConfiguration { base_url: None, api_key_env_var: None }
    }
}

impl Clone for ProviderConfiguration {
    fn clone(&self) -> (r: Self)
        ensures
            r@ == self@,
    {
        ProviderConfiguration {
            base_url: copy_optional_text(&self.base_url),
            api_key_env_var: copy_optional_text(&self.api_key_env_var),
        }
    }
}

} // verus!
