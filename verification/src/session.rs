//! The control-channel protocol: the authorization handshake, the
//! authentication step, and the linear session state machine that owns
//! the stream for the life of the process.
//!
//! The stream itself — opening it, receiving, sending — suspends and
//! lives with the runtime; every decision the protocol takes is a
//! function here, specified over the message and the shared state.
use vstd::prelude::*;

use crate::commands::{DispatchOutcome, dispatch_command};
use crate::context::Context;
use crate::error::GrcpError;
use crate::messages::{ClientMessage, ServerMessage};
use crate::secrets::{Secret, SecretStore, slot};

verus! {

/// How the authorization handshake concluded.
pub enum Verdict {
    Approved,
    Rejected,
}

/// What one handshake message means: the handshake concluded, or the
/// device keeps waiting for the server's verdict.
pub enum HandshakeStep {
    Concluded(Verdict),
    KeepWaiting,
}

/// The opening message of the handshake: the device's hardware identity,
/// the enrollment code, and what kind of client this is.
pub fn authorization_request(uuid: String, code: String, client_type: String) -> (m: ClientMessage)
    ensures
        m matches ClientMessage::AuthorizationRequest {
            uuid: u,
            code: c,
            category,
            client_type: t,
            target_os,
        } && u@ == uuid@ && c@ == code@ && category@ == "AppGuard Client"@ && t@ == client_type@
            && target_os@ == Seq::<char>::empty(),
{
    ClientMessage::AuthorizationRequest {
        uuid,
        code,
        category: "AppGuard Client".to_owned(),
        client_type,
        target_os: String::new(),
    }
}

/// Decides one message received while awaiting authorization.
///
/// `DeviceAuthorized` persists whichever credentials accompany it and
/// approves; `AuthorizationRejected` rejects and touches nothing; a
/// heartbeat keeps the wait alive; any streaming-phase message is a
/// protocol violation and touches nothing.
pub fn handshake_step(store: &mut SecretStore, msg: ServerMessage) -> (r: Result<
    HandshakeStep,
    GrcpError,
>)
    ensures
        match msg {
            ServerMessage::DeviceAuthorized { app_id, app_secret } => {
                &&& r matches Ok(HandshakeStep::Concluded(Verdict::Approved))
                &&& slot(final(store), Secret::AppId) == match app_id {
                    Some(ref v) => Some(v@),
                    None => slot(old(store), Secret::AppId),
                }
                &&& slot(final(store), Secret::AppSecret) == match app_secret {
                    Some(ref v) => Some(v@),
                    None => slot(old(store), Secret::AppSecret),
                }
                &&& slot(final(store), Secret::InstallationCode) == slot(
                    old(store),
                    Secret::InstallationCode,
                )
            },
            ServerMessage::AuthorizationRejected => {
                &&& r matches Ok(HandshakeStep::Concluded(Verdict::Rejected))
                &&& *final(store) == *old(store)
            },
            ServerMessage::Heartbeat => {
                &&& r matches Ok(HandshakeStep::KeepWaiting)
                &&& *final(store) == *old(store)
            },
            _ => {
                &&& r is Err
                &&& *final(store) == *old(store)
            },
        },
{
    match msg {
        ServerMessage::DeviceAuthorized { app_id, app_secret } => {
            if let Some(id) = app_id {
                store.set_value(Secret::AppId, id);
            }
            if let Some(secret) = app_secret {
                store.set_value(Secret::AppSecret, secret);
            }
            Ok(HandshakeStep::Concluded(Verdict::Approved))
        },
        ServerMessage::AuthorizationRejected => Ok(HandshakeStep::Concluded(Verdict::Rejected)),
        ServerMessage::Heartbeat => Ok(HandshakeStep::KeepWaiting),
        _ => Err(GrcpError::new("Unexpected message")),
    }
}

/// The authentication message sent after approval, built from the
/// persisted credentials; fails exactly when either credential is
/// missing.
pub fn authentication_message(store: &SecretStore) -> (r: Result<ClientMessage, GrcpError>)
    ensures
        match r {
            Ok(m) => {
                &&& slot(store, Secret::AppId) is Some
                &&& slot(store, Secret::AppSecret) is Some
                &&& m matches ClientMessage::Authentication { app_id, app_secret }
                    && Some(app_id@) == slot(store, Secret::AppId) && Some(app_secret@) == slot(
                    store,
                    Secret::AppSecret,
                )
            },
            Err(_) => slot(store, Secret::AppId) is None || slot(store, Secret::AppSecret) is None,
        },
        r is Ok <==> slot(store, Secret::AppId) is Some && slot(store, Secret::AppSecret) is Some,
{
    let app_id = match store.get_value(Secret::AppId) {
        Some(v) => v,
        None => {
            return Err(GrcpError::new("AppId not set"));
        },
    };
    let app_secret = match store.get_value(Secret::AppSecret) {
        Some(v) => v,
        None => {
            return Err(GrcpError::new("AppSecret not set"));
        },
    };
    Ok(ClientMessage::Authentication { app_id, app_secret })
}

/// The linear states of a control session.
#[derive(Clone, Copy, Debug, PartialEq, Eq, Structural)]
pub enum SessionState {
    /// Opening the bidirectional stream.
    Connecting,
    /// Authorization request sent; waiting for the server's verdict.
    AwaitingAuthorization,
    /// Approved; authentication message handed to the transport, waiting
    /// for the send to complete.
    Authenticating,
    /// Authenticated; receiving commands for the life of the process.
    Streaming,
    /// No further activity.
    Terminated,
}

/// What the runtime observed and hands to the state machine.
pub enum SessionEvent {
    /// The stream is open in both directions.
    Connected,
    /// The stream could not be opened.
    ConnectFailed,
    /// A message arrived.
    Inbound(ServerMessage),
    /// An envelope arrived with nothing in it.
    MalformedInbound,
    /// The last outbound send completed.
    SendOk,
    /// The last outbound send failed.
    SendFailed,
    /// The stream ended.
    StreamClosed,
}

/// What the runtime must do next.
pub enum SessionAction {
    /// Send the authorization request over the stream.
    SendAuthorizationRequest,
    /// Send this message over the stream.
    Send(ClientMessage),
    /// Nothing to do; keep receiving.
    Idle,
    /// The session is over; surface this error.
    Fail(GrcpError),
    /// The session is over without error.
    Stop,
}

/// The control session: the state machine owning the stream.
pub struct ControlSession {
    pub state: SessionState,
}

impl ControlSession {
    /// A session about to open its stream.
    pub fn new() -> (s: Self)
        ensures
            s.state == SessionState::Connecting,
    {
        ControlSession { state: SessionState::Connecting }
    }

    /// Advances the session by one observed event, mutating the shared
    /// state as the protocol demands and returning what the runtime must
    /// do next.
    ///
    /// A closed stream ends the session in any state; an event that has
    /// no meaning in the current state is a protocol violation and
    /// terminates the session with the shared state untouched. A
    /// terminated session is terminal: no event moves it elsewhere or
    /// touches the shared state.
    pub fn step(&mut self, ctx: &mut Context, event: SessionEvent) -> (a: SessionAction)
        ensures
            old(self).state == SessionState::Terminated ==> final(self).state
                == SessionState::Terminated && *final(ctx) == *old(ctx),
            match event {
                SessionEvent::StreamClosed => {
                    &&& final(self).state == SessionState::Terminated
                    &&& a is Stop
                    &&& *final(ctx) == *old(ctx)
                },
                SessionEvent::Connected => {
                    &&& *final(ctx) == *old(ctx)
                    &&& if old(self).state == SessionState::Connecting {
                        final(self).state == SessionState::AwaitingAuthorization
                            && a is SendAuthorizationRequest
                    } else {
                        final(self).state == SessionState::Terminated && a is Fail
                    }
                },
                SessionEvent::ConnectFailed => {
                    &&& final(self).state == SessionState::Terminated
                    &&& a is Fail
                    &&& *final(ctx) == *old(ctx)
                },
                SessionEvent::SendOk => {
                    &&& *final(ctx) == *old(ctx)
                    &&& if old(self).state == SessionState::Authenticating {
                        final(self).state == SessionState::Streaming && a is Idle
                    } else {
                        final(self).state == SessionState::Terminated && a is Fail
                    }
                },
                SessionEvent::SendFailed => {
                    &&& final(self).state == SessionState::Terminated
                    &&& a is Fail
                    &&& *final(ctx) == *old(ctx)
                },
                SessionEvent::MalformedInbound => {
                    &&& final(self).state == SessionState::Terminated
                    &&& a is Fail
                    &&& *final(ctx) == *old(ctx)
                },
                SessionEvent::Inbound(msg) => match old(self).state {
                    SessionState::AwaitingAuthorization => Self::awaiting_step_spec(
                        old(self),
                        final(self),
                        old(ctx),
                        final(ctx),
                        msg,
                        a,
                    ),
                    SessionState::Streaming => Self::streaming_step_spec(
                        old(self),
                        final(self),
                        old(ctx),
                        final(ctx),
                        msg,
                        a,
                    ),
                    _ => {
                        &&& final(self).state == SessionState::Terminated
                        &&& a is Fail
                        &&& *final(ctx) == *old(ctx)
                    },
                },
            },
    {
        match event {
            SessionEvent::StreamClosed => {
                self.state = SessionState::Terminated;
                SessionAction::Stop
            },
            SessionEvent::Connected => {
                if self.state == SessionState::Connecting {
                    self.state = SessionState::AwaitingAuthorization;
                    SessionAction::SendAuthorizationRequest
                } else {
                    self.state = SessionState::Terminated;
                    SessionAction::Fail(GrcpError::new("Unexpected event"))
                }
            },
            SessionEvent::ConnectFailed => {
                self.state = SessionState::Terminated;
                SessionAction::Fail(GrcpError::new("Failed to open the control stream"))
            },
            SessionEvent::SendOk => {
                if self.state == SessionState::Authenticating {
                    self.state = SessionState::Streaming;
                    SessionAction::Idle
                } else {
                    self.state = SessionState::Terminated;
                    SessionAction::Fail(GrcpError::new("Unexpected event"))
                }
            },
            SessionEvent::SendFailed => {
                self.state = SessionState::Terminated;
                SessionAction::Fail(GrcpError::new("Failed to send over the control stream"))
            },
            SessionEvent::MalformedInbound => {
                self.state = SessionState::Terminated;
                SessionAction::Fail(GrcpError::new("Malformed message"))
            },
            SessionEvent::Inbound(msg) => match self.state {
                SessionState::AwaitingAuthorization => self.awaiting_step(ctx, msg),
                SessionState::Streaming => self.streaming_step(ctx, msg),
                _ => {
                    self.state = SessionState::Terminated;
                    SessionAction::Fail(GrcpError::new("Unexpected message"))
                },
            },
        }
    }

    /// The transition relation for a message received while awaiting
    /// authorization: approval persists any granted credentials and
    /// moves to authenticating with the authentication message on the
    /// wire, unless the credentials are absent, which terminates;
    /// rejection terminates with an error; a heartbeat keeps waiting; a
    /// streaming-phase message is a protocol violation.
    pub open spec fn awaiting_step_spec(
        pre: &ControlSession,
        post: &ControlSession,
        ctx_pre: &Context,
        ctx_post: &Context,
        msg: ServerMessage,
        a: SessionAction,
    ) -> bool {
        &&& ctx_post.token_provider == ctx_pre.token_provider
        &&& ctx_post.firewall_defaults == ctx_pre.firewall_defaults
        &&& ctx_post.cache == ctx_pre.cache
        &&& match msg {
            ServerMessage::DeviceAuthorized { app_id, app_secret } => {
                &&& slot(&ctx_post.store, Secret::AppId) == match app_id {
                    Some(ref v) => Some(v@),
                    None => slot(&ctx_pre.store, Secret::AppId),
                }
                &&& slot(&ctx_post.store, Secret::AppSecret) == match app_secret {
                    Some(ref v) => Some(v@),
                    None => slot(&ctx_pre.store, Secret::AppSecret),
                }
                &&& slot(&ctx_post.store, Secret::InstallationCode) == slot(
                    &ctx_pre.store,
                    Secret::InstallationCode,
                )
                &&& if slot(&ctx_post.store, Secret::AppId) is Some && slot(
                    &ctx_post.store,
                    Secret::AppSecret,
                ) is Some {
                    &&& post.state == SessionState::Authenticating
                    &&& a matches SessionAction::Send(m) && (m matches
                        ClientMessage::Authentication { app_id: i, app_secret: s } && Some(i@)
                        == slot(&ctx_post.store, Secret::AppId) && Some(s@) == slot(
                        &ctx_post.store,
                        Secret::AppSecret,
                    ))
                } else {
                    post.state == SessionState::Terminated && a is Fail
                }
            },
            ServerMessage::AuthorizationRejected => {
                &&& post.state == SessionState::Terminated
                &&& a is Fail
                &&& ctx_post.store == ctx_pre.store
            },
            ServerMessage::Heartbeat => {
                &&& post.state == pre.state
                &&& a is Idle
                &&& ctx_post.store == ctx_pre.store
            },
            _ => {
                &&& post.state == SessionState::Terminated
                &&& a is Fail
                &&& ctx_post.store == ctx_pre.store
            },
        }
    }

    /// One message of the awaiting-authorization phase; see
    /// `awaiting_step_spec`.
    fn awaiting_step(&mut self, ctx: &mut Context, msg: ServerMessage) -> (a: SessionAction)
        requires
            old(self).state == SessionState::AwaitingAuthorization,
        ensures
            Self::awaiting_step_spec(old(self), final(self), old(ctx), final(ctx), msg, a),
    {
        match handshake_step(&mut ctx.store, msg) {
            Ok(HandshakeStep::Concluded(Verdict::Approved)) => {
                match authentication_message(&ctx.store) {
                    Ok(m) => {
                        self.state = SessionState::Authenticating;
                        SessionAction::Send(m)
                    },
                    Err(e) => {
                        self.state = SessionState::Terminated;
                        SessionAction::Fail(e)
                    },
                }
            },
            Ok(HandshakeStep::Concluded(Verdict::Rejected)) => {
                self.state = SessionState::Terminated;
                SessionAction::Fail(GrcpError::new("Authorization has been rejected"))
            },
            Ok(HandshakeStep::KeepWaiting) => SessionAction::Idle,
            Err(e) => {
                self.state = SessionState::Terminated;
                SessionAction::Fail(e)
            },
        }
    }

    /// The transition relation for a message received while streaming:
    /// commands execute against the shared state and the loop keeps
    /// receiving; a de-authorization deletes the granted credentials and
    /// re-enters the handshake; a handshake message is a protocol
    /// violation and terminates.
    pub open spec fn streaming_step_spec(
        pre: &ControlSession,
        post: &ControlSession,
        ctx_pre: &Context,
        ctx_post: &Context,
        msg: ServerMessage,
        a: SessionAction,
    ) -> bool {
        match msg {
            ServerMessage::UpdateToken { token } => {
                &&& post.state == pre.state
                &&& a is Idle
                &&& ctx_post.token_provider@ == Some(token@)
                &&& ctx_post.firewall_defaults == ctx_pre.firewall_defaults
                &&& ctx_post.cache == ctx_pre.cache
                &&& ctx_post.store == ctx_pre.store
            },
            ServerMessage::Heartbeat => {
                &&& post.state == pre.state
                &&& a is Idle
                &&& *ctx_post == *ctx_pre
            },
            ServerMessage::SetFirewallDefaults { defaults } => {
                &&& post.state == pre.state
                &&& a is Idle
                &&& ctx_post.firewall_defaults == defaults
                &&& ctx_post.cache@ == Map::<
                    crate::cache_key::CacheKeyView,
                    crate::policy::FirewallPolicy,
                >::empty()
                &&& ctx_post.cache.is_active() == defaults.cache
                &&& ctx_post.token_provider == ctx_pre.token_provider
                &&& ctx_post.store == ctx_pre.store
            },
            ServerMessage::DeviceDeauthorized => {
                &&& post.state == SessionState::AwaitingAuthorization
                &&& a is SendAuthorizationRequest
                &&& slot(&ctx_post.store, Secret::AppId) is None
                &&& slot(&ctx_post.store, Secret::AppSecret) is None
                &&& slot(&ctx_post.store, Secret::InstallationCode) == slot(
                    &ctx_pre.store,
                    Secret::InstallationCode,
                )
                &&& ctx_post.token_provider == ctx_pre.token_provider
                &&& ctx_post.firewall_defaults == ctx_pre.firewall_defaults
                &&& ctx_post.cache == ctx_pre.cache
            },
            _ => {
                &&& post.state == SessionState::Terminated
                &&& a is Fail
                &&& *ctx_post == *ctx_pre
            },
        }
    }

    /// One message of the streaming phase; see `streaming_step_spec`.
    fn streaming_step(&mut self, ctx: &mut Context, msg: ServerMessage) -> (a: SessionAction)
        requires
            old(self).state == SessionState::Streaming,
        ensures
            Self::streaming_step_spec(old(self), final(self), old(ctx), final(ctx), msg, a),
    {
        match dispatch_command(ctx, msg) {
            Ok(DispatchOutcome::Continue) => SessionAction::Idle,
            Ok(DispatchOutcome::Reauthorize) => {
                self.state = SessionState::AwaitingAuthorization;
                SessionAction::SendAuthorizationRequest
            },
            Err(e) => {
                self.state = SessionState::Terminated;
                SessionAction::Fail(e)
            },
        }
    }
}

} // verus!
