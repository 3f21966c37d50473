//! The executable control commands and their dispatch.
//!
//! Every inbound streaming message becomes one command executed as an
//! isolated unit against the shared state; no command can stall or abort
//! the receive loop.
use vstd::prelude::*;

use crate::cache::Cache;
use crate::cache_key::CacheKeyView;
use crate::context::Context;
use crate::error::GrcpError;
use crate::messages::ServerMessage;
use crate::policy::{FirewallDefaults, FirewallPolicy};
use crate::secrets::{Secret, slot};

verus! {

/// Replaces the session token.
pub struct UpdateTokenCommand {
    token: String,
}

impl UpdateTokenCommand {
    /// The token the command will install.
    pub closed spec fn token_view(&self) -> Seq<char> {
        self.token@
    }

    pub fn new(token: String) -> (c: Self)
        ensures
            c.token_view() == token@,
    {
        UpdateTokenCommand { token }
    }

    /// Installs the token; always succeeds and touches nothing else.
    pub fn execute(self, ctx: &mut Context) -> (r: Result<(), GrcpError>)
        ensures
            r is Ok,
            final(ctx).token_provider@ == Some(self.token_view()),
            final(ctx).firewall_defaults == old(ctx).firewall_defaults,
            final(ctx).cache == old(ctx).cache,
            final(ctx).store == old(ctx).store,
    {
        ctx.token_provider.update(self.token);
        Ok(())
    }
}

/// Atomically replaces the firewall defaults and resets the decision
/// cache, so no decision made under the prior configuration survives.
pub struct SetFirewallDefaultsCommand {
    defaults: FirewallDefaults,
}

impl SetFirewallDefaultsCommand {
    /// The defaults the command will install.
    pub closed spec fn defaults_of(&self) -> FirewallDefaults {
        self.defaults
    }

    pub fn new(defaults: FirewallDefaults) -> (c: Self)
        ensures
            c.defaults_of() == defaults,
    {
        SetFirewallDefaultsCommand { defaults }
    }

    /// Installs the defaults and replaces the cache with a fresh one
    /// honoring the new `cache` flag; always succeeds.
    pub fn execute(self, ctx: &mut Context) -> (r: Result<(), GrcpError>)
        ensures
            r is Ok,
            final(ctx).firewall_defaults == self.defaults_of(),
            final(ctx).cache@ == Map::<CacheKeyView, FirewallPolicy>::empty(),
            final(ctx).cache.is_active() == self.defaults_of().cache,
            final(ctx).token_provider == old(ctx).token_provider,
            final(ctx).store == old(ctx).store,
    {
        ctx.firewall_defaults = self.defaults;
        ctx.cache = Cache::new(self.defaults);
        Ok(())
    }
}

/// A liveness signal; carries nothing and changes nothing.
pub struct HeartbeatCommand {}

impl HeartbeatCommand {
    pub fn new() -> (c: Self) {
        HeartbeatCommand {}
    }

    /// Does nothing; always succeeds.
    pub fn execute(self, ctx: &mut Context) -> (r: Result<(), GrcpError>)
        ensures
            r is Ok,
            *final(ctx) == *old(ctx),
    {
        Ok(())
    }
}

/// What the receive loop must do after a command: keep streaming, or
/// tear the session down and re-enter the authorization handshake.
#[derive(Clone, Copy, Debug, PartialEq, Eq, Structural)]
pub enum DispatchOutcome {
    Continue,
    Reauthorize,
}

/// Executes one streaming-phase message against the shared state.
///
/// Token updates, heartbeats and defaults updates succeed and ask the
/// loop to continue; a de-authorization deletes the granted credentials
/// and asks for a controlled re-entry into the handshake; a handshake
/// message at this phase is a protocol violation and changes nothing.
pub fn dispatch_command(ctx: &mut Context, msg: ServerMessage) -> (r: Result<
    DispatchOutcome,
    GrcpError,
>)
    ensures
        match msg {
            ServerMessage::UpdateToken { token } => {
                &&& r == Ok::<DispatchOutcome, GrcpError>(DispatchOutcome::Continue)
                &&& final(ctx).token_provider@ == Some(token@)
                &&& final(ctx).firewall_defaults == old(ctx).firewall_defaults
                &&& final(ctx).cache == old(ctx).cache
                &&& final(ctx).store == old(ctx).store
            },
            ServerMessage::Heartbeat => {
                &&& r == Ok::<DispatchOutcome, GrcpError>(DispatchOutcome::Continue)
                &&& *final(ctx) == *old(ctx)
            },
            ServerMessage::SetFirewallDefaults { defaults } => {
                &&& r == Ok::<DispatchOutcome, GrcpError>(DispatchOutcome::Continue)
                &&& final(ctx).firewall_defaults == defaults
                &&& final(ctx).cache@ == Map::<CacheKeyView, FirewallPolicy>::empty()
                &&& final(ctx).cache.is_active() == defaults.cache
                &&& final(ctx).token_provider == old(ctx).token_provider
                &&& final(ctx).store == old(ctx).store
            },
            ServerMessage::DeviceDeauthorized => {
                &&& r == Ok::<DispatchOutcome, GrcpError>(DispatchOutcome::Reauthorize)
                &&& slot(&final(ctx).store, Secret::AppId) is None
                &&& slot(&final(ctx).store, Secret::AppSecret) is None
                &&& slot(&final(ctx).store, Secret::InstallationCode) == slot(
                    &old(ctx).store,
                    Secret::InstallationCode,
                )
                &&& final(ctx).token_provider == old(ctx).token_provider
                &&& final(ctx).firewall_defaults == old(ctx).firewall_defaults
                &&& final(ctx).cache == old(ctx).cache
            },
            ServerMessage::DeviceAuthorized { .. } => {
                &&& r is Err
                &&& *final(ctx) == *old(ctx)
            },
            ServerMessage::AuthorizationRejected => {
                &&& r is Err
                &&& *final(ctx) == *old(ctx)
            },
        },
{
    match msg {
        ServerMessage::UpdateToken { token } => {
            let cmd = UpdateTokenCommand::new(token);
            match cmd.execute(ctx) {
                Ok(()) => Ok(DispatchOutcome::Continue),
                Err(e) => Err(e),
            }
        },
        ServerMessage::Heartbeat => {
            let cmd = HeartbeatCommand::new();
            match cmd.execute(ctx) {
                Ok(()) => Ok(DispatchOutcome::Continue),
                Err(e) => Err(e),
            }
        },
        ServerMessage::SetFirewallDefaults { defaults } => {
            let cmd = SetFirewallDefaultsCommand::new(defaults);
            match cmd.execute(ctx) {
                Ok(()) => Ok(DispatchOutcome::Continue),
                Err(e) => Err(e),
            }
        },
        ServerMessage::DeviceDeauthorized => {
            ctx.store.delete_value(Secret::AppId);
            ctx.store.delete_value(Secret::AppSecret);
            Ok(DispatchOutcome::Reauthorize)
        },
        ServerMessage::DeviceAuthorized { .. } => Err(GrcpError::new("Unexpected message")),
        ServerMessage::AuthorizationRejected => Err(GrcpError::new("Unexpected message")),
    }
}

} // verus!
