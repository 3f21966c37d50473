//! The shared state every component works against: the session token,
//! the firewall defaults, the decision cache, and the device's secrets.
//!
//! The embedding application holds each piece behind its own lock and
//! hands exclusive access to the functions here; no function holds more
//! than what its signature takes.
use vstd::prelude::*;

use crate::cache::Cache;
use crate::error::GrcpError;
use crate::policy::FirewallDefaults;
use crate::secrets::{Secret, SecretStore, slot};
use crate::token::TokenProvider;

verus! {

/// The agent's shared state.
pub struct Context {
    pub token_provider: TokenProvider,
    pub firewall_defaults: FirewallDefaults,
    pub cache: Cache,
    pub store: SecretStore,
}

impl Context {
    /// The state at startup, before the server pushes anything: no
    /// token, default firewall configuration, a cache honoring it, and
    /// the secrets as loaded from persistence.
    pub fn new(store: SecretStore) -> (ctx: Context)
        ensures
            ctx.token_provider@ is None,
            ctx.firewall_defaults.timeout is None,
            !ctx.firewall_defaults.cache,
            ctx.cache.is_active() == ctx.firewall_defaults.cache,
            ctx.cache@.is_empty(),
            ctx.store == store,
    {
        let firewall_defaults = FirewallDefaults::default();
        let cache = Cache::new(firewall_defaults);
        Context { token_provider: TokenProvider::new(), firewall_defaults, cache, store }
    }
}

/// Resolves the installation code at startup: an explicitly configured
/// code wins and is persisted; otherwise the previously persisted code is
/// kept; with neither, startup fails. The other secrets are untouched.
pub fn resolve_installation_code(configured: Option<String>, store: &mut SecretStore) -> (r:
    Result<String, GrcpError>)
    ensures
        match r {
            Ok(code) => {
                &&& slot(final(store), Secret::InstallationCode) == Some(code@)
                &&& match configured {
                    Some(c) => code@ == c@,
                    None => slot(old(store), Secret::InstallationCode) == Some(code@),
                }
            },
            Err(_) => {
                &&& configured is None
                &&& slot(old(store), Secret::InstallationCode) is None
                &&& *final(store) == *old(store)
            },
        },
        r is Err <==> configured is None && slot(old(store), Secret::InstallationCode) is None,
        forall|other: Secret|
            other != Secret::InstallationCode ==> slot(final(store), other) == slot(
                old(store),
                other,
            ),
{
    let code = match configured {
        Some(c) => c,
        None => {
            match store.get_value(Secret::InstallationCode) {
                Some(c) => c,
                None => {
                    return Err(GrcpError::new("Installation code not set"));
                },
            }
        },
    };
    store.set_value(Secret::InstallationCode, code.clone());
    Ok(code)
}

} // verus!
