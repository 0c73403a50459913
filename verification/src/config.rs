//! The run's configuration: the store's endpoint and credential, and the
//! optional credentials of the reverse-search and social-media providers.
//!
//! Reading and layering the configuration files happens outside the
//! library; the values live here.

use vstd::prelude::*;

verus! {

/// Endpoint and credential of the library store.
#[derive(Clone, Debug, PartialEq, Eq)]
pub struct HydrusConfig {
    pub api_url: String,
    pub api_key: String,
}

/// Credential of the reverse-image-search provider.
#[derive(Clone, Debug, PartialEq, Eq)]
pub struct SauceNaoConfig {
    pub api_key: String,
}

/// Key pair of the social-media provider.
#[derive(Clone, Debug, PartialEq, Eq)]
pub struct TwitterConfig {
    pub consumer_key: String,
    pub consumer_secret: String,
}

/// The whole configuration. The store section is required; the provider
/// sections exist only where the matching flow is configured.
#[derive(Clone, Debug, PartialEq, Eq)]
pub struct Config {
    pub hydrus: HydrusConfig,
    pub saucenao: Option<SauceNaoConfig>,
    pub twitter: Option<TwitterConfig>,
}

impl Config {
    /// The reverse-search configuration of a run that selected a
    /// reverse-search flow. A run without one is rejected before any
    /// work begins, so callers establish that the section exists.
    pub fn into_saucenao(self) -> (r: SauceNaoConfig)
        requires
            self.saucenao is Some,
        ensures
            self.saucenao == Some(r),
    {
        match self.saucenao {
            Some(c) => c,
            None => vstd::pervasive::unreached(),
        }
    }
}

} // verus!
