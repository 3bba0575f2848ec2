//! Routing configuration: the domain under which applications are exposed
//! and the network the reverse proxy shares with them.

use vstd::prelude::*;

verus! {

/// # PaaS routing config
/// Network configuration info for the reverse proxy.
#[derive(Debug, Clone, PartialEq, Eq)]
pub struct TraefikConfig {
    /// The root fully-qualified domain name used by all apps, e.g.
    /// `paastech.cloud`.
    pub fqdn: String,

    /// Name of the network in which the reverse proxy communicates with
    /// spawned containers.
    pub network_name: String,
}

impl TraefikConfig {
    /// Build the routing configuration from optionally-supplied values,
    /// falling back to the documented defaults: `localhost` for the domain
    /// and `traefik-fallback-network` for the network.
    pub fn from_values(fqdn: Option<String>, network_name: Option<String>) -> (r: TraefikConfig)
        ensures
            fqdn matches Some(v) ==> r.fqdn == v,
            fqdn is None ==> r.fqdn@ == "localhost"@,
            network_name matches Some(v) ==> r.network_name == v,
            network_name is None ==> r.network_name@ == "traefik-fallback-network"@,
    {
        let fqdn = match fqdn {
            Some(v) => v,
            None => String::from_str("localhost"),
        };
        let network_name = match network_name {
            Some(v) => v,
            None => String::from_str("traefik-fallback-network"),
        };
        TraefikConfig { fqdn, network_name }
    }
}

} // verus!
