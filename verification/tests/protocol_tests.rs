use appguard_agent::cache_key::CacheKey;
use appguard_agent::commands::{
    DispatchOutcome, SetFirewallDefaultsCommand, UpdateTokenCommand, dispatch_command,
};
use appguard_agent::context::{Context, resolve_installation_code};
use appguard_agent::kv::KvMap;
use appguard_agent::messages::{ClientMessage, ServerMessage};
use appguard_agent::policy::{FirewallDefaults, FirewallPolicy};
use appguard_agent::secrets::{Secret, SecretStore};
use appguard_agent::session::{
    ControlSession, HandshakeStep, SessionAction, SessionEvent, SessionState, Verdict,
    authentication_message, authorization_request, handshake_step,
};
use appguard_agent::config::AppGuardConfig;
use appguard_agent::heartbeat::{DeviceStanding, HeartbeatDirective, handle_hb_response};
use appguard_agent::token::{PollStep, RetrievalStrategy, TokenProvider, obtain_from_polls, poll_step};

fn fresh_context() -> Context {
    Context::new(SecretStore::new())
}

fn some_key() -> CacheKey {
    CacheKey {
        original_url: "/".to_owned(),
        method: "GET".to_owned(),
        query: KvMap::new(),
        headers: KvMap::new(),
        body: "".to_owned(),
        source_ip: "127.0.0.1".to_owned(),
    }
}

#[test]
fn heartbeat_standing_decides_fate() {
    assert_eq!(handle_hb_response(Some(DeviceStanding::Archived)), HeartbeatDirective::Abort);
    assert_eq!(handle_hb_response(Some(DeviceStanding::Deleted)), HeartbeatDirective::Abort);
    assert_eq!(handle_hb_response(Some(DeviceStanding::Active)), HeartbeatDirective::Continue);
    assert_eq!(handle_hb_response(None), HeartbeatDirective::ReportUnknown);
}

#[test]
fn config_holds_what_it_was_given() {
    let c = AppGuardConfig::new(
        "firewall.example".to_owned(),
        4433,
        true,
        Some(250),
        FirewallPolicy::Allow,
    );
    assert_eq!(c.host, "firewall.example".to_owned());
    assert_eq!(c.port, 4433);
    assert!(c.tls);
    assert_eq!(c.timeout, Some(250));
    assert_eq!(c.default_policy, FirewallPolicy::Allow);
}

#[test]
fn firewall_defaults_initial_value() {
    let d = FirewallDefaults::default();
    assert_eq!(d.timeout, None);
    assert_eq!(d.policy, FirewallPolicy::Allow);
    assert!(!d.cache);
}

#[test]
fn token_provider_update_then_get() {
    let mut p = TokenProvider::new();
    assert_eq!(p.get(), None);
    p.update("tok-1".to_owned());
    assert_eq!(p.get(), Some("tok-1".to_owned()));
    p.update("tok-2".to_owned());
    assert_eq!(p.get(), Some("tok-2".to_owned()));
    let _ = RetrievalStrategy::Await(10_000);
}

#[test]
fn poll_step_decides() {
    assert!(matches!(poll_step(None), PollStep::Retry));
    assert!(matches!(poll_step(Some("".to_owned())), PollStep::Retry));
    match poll_step(Some("tok".to_owned())) {
        PollStep::Done(t) => assert_eq!(t, "tok".to_owned()),
        PollStep::Retry => panic!("non-empty token must end the wait"),
    }
}

#[test]
fn obtain_returns_first_nonempty_token() {
    let polls = vec![None, Some("".to_owned()), Some("tok".to_owned()), Some("late".to_owned())];
    assert_eq!(obtain_from_polls(polls), Some("tok".to_owned()));
}

#[test]
fn obtain_returns_none_without_update() {
    let polls = vec![None, Some("".to_owned()), None];
    assert_eq!(obtain_from_polls(polls), None);
    assert_eq!(obtain_from_polls(Vec::new()), None);
}

#[test]
fn secret_store_read_after_write() {
    let mut s = SecretStore::new();
    assert_eq!(s.get_value(Secret::AppId), None);
    s.set_value(Secret::AppId, "A".to_owned());
    s.set_value(Secret::AppSecret, "S".to_owned());
    assert_eq!(s.get_value(Secret::AppId), Some("A".to_owned()));
    assert_eq!(s.get_value(Secret::AppSecret), Some("S".to_owned()));
    s.delete_value(Secret::AppId);
    assert_eq!(s.get_value(Secret::AppId), None);
    assert_eq!(s.get_value(Secret::AppSecret), Some("S".to_owned()));
}

#[test]
fn installation_code_prefers_configured() {
    let mut s = SecretStore::new();
    s.set_value(Secret::InstallationCode, "old".to_owned());
    let r = resolve_installation_code(Some("new".to_owned()), &mut s);
    assert_eq!(r.ok(), Some("new".to_owned()));
    assert_eq!(s.get_value(Secret::InstallationCode), Some("new".to_owned()));
}

#[test]
fn installation_code_falls_back_to_store() {
    let mut s = SecretStore::new();
    s.set_value(Secret::InstallationCode, "stored".to_owned());
    let r = resolve_installation_code(None, &mut s);
    assert_eq!(r.ok(), Some("stored".to_owned()));
}

#[test]
fn installation_code_missing_is_an_error() {
    let mut s = SecretStore::new();
    let r = resolve_installation_code(None, &mut s);
    assert!(r.is_err());
    assert_eq!(s.get_value(Secret::InstallationCode), None);
}

#[test]
fn handshake_authorized_persists_credentials() {
    // End-to-end: DeviceAuthorized{app_id:"A", app_secret:"S"} leaves
    // AppId="A", AppSecret="S" in the store and approves.
    let mut s = SecretStore::new();
    let r = handshake_step(
        &mut s,
        ServerMessage::DeviceAuthorized {
            app_id: Some("A".to_owned()),
            app_secret: Some("S".to_owned()),
        },
    );
    assert!(matches!(r, Ok(HandshakeStep::Concluded(Verdict::Approved))));
    assert_eq!(s.get_value(Secret::AppId), Some("A".to_owned()));
    assert_eq!(s.get_value(Secret::AppSecret), Some("S".to_owned()));
}

#[test]
fn handshake_authorized_without_credentials_keeps_store() {
    let mut s = SecretStore::new();
    s.set_value(Secret::AppId, "existing".to_owned());
    let r = handshake_step(
        &mut s,
        ServerMessage::DeviceAuthorized { app_id: None, app_secret: None },
    );
    assert!(matches!(r, Ok(HandshakeStep::Concluded(Verdict::Approved))));
    assert_eq!(s.get_value(Secret::AppId), Some("existing".to_owned()));
}

#[test]
fn handshake_rejected_touches_nothing() {
    let mut s = SecretStore::new();
    let r = handshake_step(&mut s, ServerMessage::AuthorizationRejected);
    assert!(matches!(r, Ok(HandshakeStep::Concluded(Verdict::Rejected))));
    assert_eq!(s.get_value(Secret::AppId), None);
    assert_eq!(s.get_value(Secret::AppSecret), None);
}

#[test]
fn handshake_heartbeat_keeps_waiting() {
    let mut s = SecretStore::new();
    let r = handshake_step(&mut s, ServerMessage::Heartbeat);
    assert!(matches!(r, Ok(HandshakeStep::KeepWaiting)));
}

#[test]
fn handshake_rejects_streaming_messages() {
    let mut s = SecretStore::new();
    let r = handshake_step(&mut s, ServerMessage::UpdateToken { token: "t".to_owned() });
    assert!(r.is_err());
    assert_eq!(r.err().unwrap().message(), &"Unexpected message".to_owned());
}

#[test]
fn authorization_request_shape() {
    let m = authorization_request("uuid-1".to_owned(), "code-1".to_owned(), "Axum".to_owned());
    match m {
        ClientMessage::AuthorizationRequest { uuid, code, category, client_type, target_os } => {
            assert_eq!(uuid, "uuid-1".to_owned());
            assert_eq!(code, "code-1".to_owned());
            assert_eq!(category, "AppGuard Client".to_owned());
            assert_eq!(client_type, "Axum".to_owned());
            assert_eq!(target_os, String::new());
        },
        ClientMessage::Authentication { .. } => panic!("wrong message"),
    }
}

#[test]
fn authentication_message_needs_both_credentials() {
    let mut s = SecretStore::new();
    assert!(authentication_message(&s).is_err());
    s.set_value(Secret::AppId, "A".to_owned());
    let r = authentication_message(&s);
    assert!(r.is_err());
    assert_eq!(r.err().unwrap().message(), &"AppSecret not set".to_owned());
    s.set_value(Secret::AppSecret, "S".to_owned());
    match authentication_message(&s) {
        Ok(ClientMessage::Authentication { app_id, app_secret }) => {
            assert_eq!(app_id, "A".to_owned());
            assert_eq!(app_secret, "S".to_owned());
        },
        _ => panic!("expected an authentication message"),
    }
}

#[test]
fn update_token_command_installs_token() {
    let mut ctx = fresh_context();
    let cmd = UpdateTokenCommand::new("tok".to_owned());
    assert!(cmd.execute(&mut ctx).is_ok());
    assert_eq!(ctx.token_provider.get(), Some("tok".to_owned()));
}

#[test]
fn set_firewall_defaults_resets_cache() {
    // A decision cached under the old configuration must not survive the
    // command.
    let mut ctx = fresh_context();
    let enabled = FirewallDefaults { timeout: None, policy: FirewallPolicy::Allow, cache: true };
    assert!(SetFirewallDefaultsCommand::new(enabled).execute(&mut ctx).is_ok());
    ctx.cache.insert(some_key(), FirewallPolicy::Deny);
    assert_eq!(ctx.cache.get(&some_key()), Some(FirewallPolicy::Deny));

    let newer = FirewallDefaults { timeout: Some(500), policy: FirewallPolicy::Deny, cache: true };
    assert!(SetFirewallDefaultsCommand::new(newer).execute(&mut ctx).is_ok());
    assert_eq!(ctx.firewall_defaults, newer);
    assert_eq!(ctx.cache.get(&some_key()), None);
}

#[test]
fn dispatch_executes_each_command() {
    let mut ctx = fresh_context();
    ctx.store.set_value(Secret::AppId, "A".to_owned());
    ctx.store.set_value(Secret::AppSecret, "S".to_owned());

    let r = dispatch_command(&mut ctx, ServerMessage::UpdateToken { token: "t".to_owned() });
    assert_eq!(r.ok(), Some(DispatchOutcome::Continue));
    assert_eq!(ctx.token_provider.get(), Some("t".to_owned()));

    let r = dispatch_command(&mut ctx, ServerMessage::Heartbeat);
    assert_eq!(r.ok(), Some(DispatchOutcome::Continue));

    let r = dispatch_command(&mut ctx, ServerMessage::DeviceDeauthorized);
    assert_eq!(r.ok(), Some(DispatchOutcome::Reauthorize));
    assert_eq!(ctx.store.get_value(Secret::AppId), None);
    assert_eq!(ctx.store.get_value(Secret::AppSecret), None);

    let r = dispatch_command(
        &mut ctx,
        ServerMessage::DeviceAuthorized { app_id: None, app_secret: None },
    );
    assert!(r.is_err());
    let r = dispatch_command(&mut ctx, ServerMessage::AuthorizationRejected);
    assert!(r.is_err());
}

#[test]
fn session_full_walk_to_streaming() {
    let mut session = ControlSession::new();
    let mut ctx = fresh_context();
    assert_eq!(session.state, SessionState::Connecting);

    let a = session.step(&mut ctx, SessionEvent::Connected);
    assert!(matches!(a, SessionAction::SendAuthorizationRequest));
    assert_eq!(session.state, SessionState::AwaitingAuthorization);

    let a = session.step(&mut ctx, SessionEvent::Inbound(ServerMessage::Heartbeat));
    assert!(matches!(a, SessionAction::Idle));
    assert_eq!(session.state, SessionState::AwaitingAuthorization);

    let a = session.step(
        &mut ctx,
        SessionEvent::Inbound(ServerMessage::DeviceAuthorized {
            app_id: Some("A".to_owned()),
            app_secret: Some("S".to_owned()),
        }),
    );
    match a {
        SessionAction::Send(ClientMessage::Authentication { app_id, app_secret }) => {
            assert_eq!(app_id, "A".to_owned());
            assert_eq!(app_secret, "S".to_owned());
        },
        _ => panic!("expected the authentication message"),
    }
    assert_eq!(session.state, SessionState::Authenticating);

    let a = session.step(&mut ctx, SessionEvent::SendOk);
    assert!(matches!(a, SessionAction::Idle));
    assert_eq!(session.state, SessionState::Streaming);

    let a = session.step(
        &mut ctx,
        SessionEvent::Inbound(ServerMessage::UpdateToken { token: "tok".to_owned() }),
    );
    assert!(matches!(a, SessionAction::Idle));
    assert_eq!(ctx.token_provider.get(), Some("tok".to_owned()));

    let a = session.step(&mut ctx, SessionEvent::Inbound(ServerMessage::DeviceDeauthorized));
    assert!(matches!(a, SessionAction::SendAuthorizationRequest));
    assert_eq!(session.state, SessionState::AwaitingAuthorization);
    assert_eq!(ctx.store.get_value(Secret::AppId), None);

    let a = session.step(&mut ctx, SessionEvent::StreamClosed);
    assert!(matches!(a, SessionAction::Stop));
    assert_eq!(session.state, SessionState::Terminated);
}

#[test]
fn session_rejection_terminates_with_error() {
    // End-to-end: AuthorizationRejected ends the session with an error
    // and the store untouched.
    let mut session = ControlSession::new();
    let mut ctx = fresh_context();
    session.step(&mut ctx, SessionEvent::Connected);
    let a = session.step(&mut ctx, SessionEvent::Inbound(ServerMessage::AuthorizationRejected));
    match a {
        SessionAction::Fail(e) => {
            assert_eq!(e.message(), &"Authorization has been rejected".to_owned());
        },
        _ => panic!("rejection must surface an error"),
    }
    assert_eq!(session.state, SessionState::Terminated);
    assert_eq!(ctx.store.get_value(Secret::AppId), None);
    assert_eq!(ctx.store.get_value(Secret::AppSecret), None);
}

#[test]
fn session_malformed_message_is_fatal() {
    let mut session = ControlSession::new();
    let mut ctx = fresh_context();
    session.step(&mut ctx, SessionEvent::Connected);
    let a = session.step(&mut ctx, SessionEvent::MalformedInbound);
    assert!(matches!(a, SessionAction::Fail(_)));
    assert_eq!(session.state, SessionState::Terminated);
}

#[test]
fn session_connect_failure_is_fatal() {
    let mut session = ControlSession::new();
    let mut ctx = fresh_context();
    let a = session.step(&mut ctx, SessionEvent::ConnectFailed);
    assert!(matches!(a, SessionAction::Fail(_)));
    assert_eq!(session.state, SessionState::Terminated);
}

#[test]
fn session_approval_without_credentials_terminates() {
    let mut session = ControlSession::new();
    let mut ctx = fresh_context();
    session.step(&mut ctx, SessionEvent::Connected);
    let a = session.step(
        &mut ctx,
        SessionEvent::Inbound(ServerMessage::DeviceAuthorized { app_id: None, app_secret: None }),
    );
    assert!(matches!(a, SessionAction::Fail(_)));
    assert_eq!(session.state, SessionState::Terminated);
}
