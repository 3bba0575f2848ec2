//! The whole configuration the engine needs, gathered in one struct that is
//! built once at startup and handed to the engine.

use vstd::prelude::*;

use crate::config::traefik_config::TraefikConfig;

verus! {

/// Struct encapsulating every configuration needed by the app.
#[derive(Debug, Clone, PartialEq, Eq)]
pub struct ApplicationConfig {
    /// Routing configuration, see [`TraefikConfig`].
    pub traefik_config: TraefikConfig,
}

impl ApplicationConfig {
    /// Wrap a routing configuration.
    pub fn new(traefik_config: TraefikConfig) -> (r: ApplicationConfig)
        ensures
            r.traefik_config == traefik_config,
    {
        ApplicationConfig { traefik_config }
    }
}

} // verus!
