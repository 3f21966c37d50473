//! The timeout-bounded remote-call decisions and the plain data shapes
//! of the three decision calls.
//!
//! The calls themselves suspend on the network and live with the
//! runtime. What is decided here, and verified: when the configured
//! deadline substitutes the default outcome, and what that default is —
//! never an error, and for the connection call an echo of the same
//! connection so downstream calls keep their context.
use vstd::prelude::*;

use crate::error::GrcpError;
use crate::kv::KvMap;
use crate::policy::FirewallPolicy;

verus! {

/// The connection descriptor handed to the decision service.
#[derive(Clone, Debug)]
pub struct AppGuardTcpConnection {
    pub token: String,
    pub source_ip: Option<String>,
    pub source_port: Option<u32>,
    pub destination_ip: Option<String>,
    pub destination_port: Option<u32>,
    pub protocol: String,
}

/// Connection metadata echoed and enriched by the decision service.
#[derive(Clone, Debug)]
pub struct AppGuardTcpInfo {
    pub connection: Option<AppGuardTcpConnection>,
}

/// The decision service's answer to a connection check.
pub struct AppGuardTcpResponse {
    pub tcp_info: Option<AppGuardTcpInfo>,
}

/// The request descriptor handed to the decision service.
pub struct AppGuardHttpRequest {
    pub token: String,
    pub original_url: String,
    pub headers: KvMap,
    pub method: String,
    pub body: Option<String>,
    pub query: KvMap,
    pub tcp_info: Option<AppGuardTcpInfo>,
}

/// The response descriptor handed to the decision service.
pub struct AppGuardHttpResponse {
    pub token: String,
    pub code: u32,
    pub headers: KvMap,
    pub tcp_info: Option<AppGuardTcpInfo>,
}

/// The decision service's answer to a request or response check.
pub struct AppGuardResponse {
    pub policy: FirewallPolicy,
}

/// True when a configured deadline elapsed before the call resolved.
pub open spec fn deadline_expired(timeout: Option<u64>, latency_ms: u64) -> bool {
    timeout matches Some(t) && latency_ms > t
}

/// The answer synthesized when a connection check times out: the same
/// connection echoed back, so downstream calls retain their context.
pub fn default_tcp_response(connection: AppGuardTcpConnection) -> (r: AppGuardTcpResponse)
    ensures
        r.tcp_info matches Some(info) && (info.connection matches Some(c) && c == connection),
{
    AppGuardTcpResponse { tcp_info: Some(AppGuardTcpInfo { connection: Some(connection) }) }
}

/// What a deadline-bounded policy check returns, given how the remote
/// call resolved.
///
/// Within the deadline — or with no deadline configured — the call's own
/// outcome is surfaced, errors included; past the deadline the call's
/// outcome is discarded and the configured default policy is returned as
/// a success, never as an error.
pub fn wait_until_timeout_policy(
    timeout: Option<u64>,
    latency_ms: u64,
    outcome: Result<AppGuardResponse, GrcpError>,
    default_policy: FirewallPolicy,
) -> (r: Result<AppGuardResponse, GrcpError>)
    ensures
        deadline_expired(timeout, latency_ms) ==> (r matches Ok(resp) && resp.policy
            == default_policy),
        !deadline_expired(timeout, latency_ms) ==> r == outcome,
{
    match timeout {
        Some(t) => {
            if latency_ms > t {
                Ok(AppGuardResponse { policy: default_policy })
            } else {
                outcome
            }
        },
        None => outcome,
    }
}

/// What a deadline-bounded connection check returns, given how the
/// remote call resolved: its own outcome within the deadline, and past
/// the deadline a success echoing the connection back.
pub fn wait_until_timeout_tcp(
    timeout: Option<u64>,
    latency_ms: u64,
    outcome: Result<AppGuardTcpResponse, GrcpError>,
    connection: AppGuardTcpConnection,
) -> (r: Result<AppGuardTcpResponse, GrcpError>)
    ensures
        deadline_expired(timeout, latency_ms) ==> (r matches Ok(resp) && (resp.tcp_info matches
            Some(info) && (info.connection matches Some(c) && c == connection))),
        !deadline_expired(timeout, latency_ms) ==> r == outcome,
{
    match timeout {
        Some(t) => {
            if latency_ms > t {
                Ok(default_tcp_response(connection))
            } else {
                outcome
            }
        },
        None => outcome,
    }
}

/// A call past its deadline yields the configured default within the
/// deadline's bound, not an error; a call within its deadline yields its
/// real outcome. Holds for every timeout and every latency.
pub proof fn lemma_timeout_substitutes_default(
    timeout: u64,
    latency_ms: u64,
    outcome: Result<AppGuardResponse, GrcpError>,
    default_policy: FirewallPolicy,
    r: Result<AppGuardResponse, GrcpError>,
)
    requires
        call_ensures(
            wait_until_timeout_policy,
            (Some(timeout), latency_ms, outcome, default_policy),
            r,
        ),
    ensures
        latency_ms > timeout ==> (r matches Ok(resp) && resp.policy == default_policy),
        latency_ms <= timeout ==> r == outcome,
{
}

} // verus!
