//! The client configuration an embedding application supplies at
//! startup.
use vstd::prelude::*;

use crate::policy::FirewallPolicy;

verus! {

/// `AppGuard` client configuration.
pub struct AppGuardConfig {
    /// Hostname of the `AppGuard` server.
    pub host: String,
    /// Port of the `AppGuard` server.
    pub port: u16,
    /// Whether traffic to the `AppGuard` server should be secured with
    /// TLS.
    pub tls: bool,
    /// Timeout for calls to the `AppGuard` server (milliseconds).
    pub timeout: Option<u64>,
    /// Default firewall policy to apply when the `AppGuard` server times
    /// out.
    pub default_policy: FirewallPolicy,
}

impl AppGuardConfig {
    /// Gathers a configuration.
    pub fn new(
        host: String,
        port: u16,
        tls: bool,
        timeout: Option<u64>,
        default_policy: FirewallPolicy,
    ) -> (c: Self)
        ensures
            c.host@ == host@,
            c.port == port,
            c.tls == tls,
            c.timeout == timeout,
            c.default_policy == default_policy,
    {
        AppGuardConfig { host, port, tls, timeout, default_policy }
    }
}

} // verus!
