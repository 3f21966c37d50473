//! The control-channel wire messages, as plain data: what the server
//! pushes to the device and what the device sends back. The transport
//! converts these to and from its own envelopes at the process edge.
use vstd::prelude::*;

use crate::policy::FirewallDefaults;

verus! {

/// A message pushed by the server over the control stream.
pub enum ServerMessage {
    /// Handshake only: the device was authorized; freshly granted
    /// credentials may accompany the message.
    DeviceAuthorized { app_id: Option<String>, app_secret: Option<String> },
    /// Handshake only: the device was rejected.
    AuthorizationRejected,
    /// Keep-alive; carries nothing.
    Heartbeat,
    /// Replace the session token.
    UpdateToken { token: String },
    /// Replace the firewall defaults and reset the decision cache.
    SetFirewallDefaults { defaults: FirewallDefaults },
    /// The device's authorization was revoked.
    DeviceDeauthorized,
}

/// A message the device sends over the control stream.
pub enum ClientMessage {
    /// Opens the handshake: who this device is and the enrollment code
    /// binding it to an account.
    AuthorizationRequest {
        uuid: String,
        code: String,
        category: String,
        client_type: String,
        target_os: String,
    },
    /// Authenticates the session after authorization.
    Authentication { app_id: String, app_secret: String },
}

} // verus!
