//! Firewall policy outcomes and the server-pushed default configuration.
use vstd::prelude::*;

verus! {

/// A policy decision for a request, connection or response.
#[derive(Clone, Copy, Debug, PartialEq, Eq, Structural)]
pub enum FirewallPolicy {
    Allow,
    Deny,
}

/// Server-authoritative defaults, replaced wholesale by a control command:
/// an optional deadline for remote decision calls (milliseconds), the
/// fallback policy applied when that deadline expires, and whether the
/// decision cache is enabled.
#[derive(Clone, Copy, Debug, PartialEq, Eq, Structural)]
pub struct FirewallDefaults {
    pub timeout: Option<u64>,
    pub policy: FirewallPolicy,
    pub cache: bool,
}

impl Default for FirewallDefaults {
    /// Before the server pushes a configuration: no deadline, allow on
    /// timeout, caching off.
    fn default() -> (d: Self)
        ensures
            d.timeout is None,
            d.policy == FirewallPolicy::Allow,
            !d.cache,
    {
        FirewallDefaults { timeout: None, policy: FirewallPolicy::Allow, cache: false }
    }
}

} // verus!
