//! The per-request decision path: consult the cache first, otherwise run
//! the remote checks in order — connection, request, and after the
//! protected handler, response — recording the outcome in the cache.
//!
//! The remote calls and the protected handler live with the runtime;
//! every decision between them is a function here.
use vstd::prelude::*;

use crate::cache::Cache;
use crate::cache_key::CacheKey;
use crate::error::GrcpError;
use crate::policy::FirewallPolicy;
use crate::remote::{AppGuardResponse, AppGuardTcpResponse};

verus! {

/// What the cache says about a request before any remote call.
#[derive(Clone, Copy, Debug, PartialEq, Eq, Structural)]
pub enum InitialDecision {
    /// A denial was cached: refuse the request, no remote call.
    DenyFromCache,
    /// An approval was cached: run the handler, no remote call.
    AllowFromCache,
    /// Nothing cached (or caching disabled): evaluate remotely.
    Evaluate,
}

/// Consults the cache for this fingerprint.
pub fn initial_decision(cache: &Cache, key: &CacheKey) -> (d: InitialDecision)
    ensures
        d == if cache.is_active() && cache@.contains_key(key@) {
            if cache@[key@] == FirewallPolicy::Deny {
                InitialDecision::DenyFromCache
            } else {
                InitialDecision::AllowFromCache
            }
        } else {
            InitialDecision::Evaluate
        },
{
    match cache.get(key) {
        Some(FirewallPolicy::Deny) => InitialDecision::DenyFromCache,
        Some(FirewallPolicy::Allow) => InitialDecision::AllowFromCache,
        None => InitialDecision::Evaluate,
    }
}

/// Whether the request proceeds or is refused.
#[derive(Clone, Copy, Debug, PartialEq, Eq, Structural)]
pub enum CheckDecision {
    /// Refuse with an unauthorized response.
    Unauthorized,
    /// Go on to the next step.
    Proceed,
}

/// How a remote check resolved, as the flow reads it.
pub enum RemoteOutcome {
    /// The call failed (not a timeout): fail the request safely with an
    /// internal error, distinct from a policy denial.
    InternalError,
    /// The service answered with a policy.
    Policy(FirewallPolicy),
}

/// Reads a remote check's result: an error fails the request safely, an
/// answer carries its policy on.
pub fn classify_remote_result(result: Result<AppGuardResponse, GrcpError>) -> (o: RemoteOutcome)
    ensures
        match result {
            Ok(resp) => o matches RemoteOutcome::Policy(p) && p == resp.policy,
            Err(_) => o is InternalError,
        },
{
    match result {
        Ok(resp) => RemoteOutcome::Policy(resp.policy),
        Err(_) => RemoteOutcome::InternalError,
    }
}

/// Acts on the request check's policy: a denial is cached and refuses
/// the request before the protected handler runs; an approval proceeds
/// and caches nothing yet.
pub fn record_request_policy(cache: &mut Cache, key: &CacheKey, policy: FirewallPolicy) -> (d:
    CheckDecision)
    ensures
        final(cache).is_active() == old(cache).is_active(),
        match policy {
            FirewallPolicy::Deny => {
                &&& d == CheckDecision::Unauthorized
                &&& final(cache)@ == if old(cache).is_active() {
                    old(cache)@.insert(key@, FirewallPolicy::Deny)
                } else {
                    old(cache)@
                }
            },
            FirewallPolicy::Allow => {
                &&& d == CheckDecision::Proceed
                &&& final(cache)@ == old(cache)@
            },
        },
{
    match policy {
        FirewallPolicy::Deny => {
            cache.insert(key.clone(), FirewallPolicy::Deny);
            CheckDecision::Unauthorized
        },
        FirewallPolicy::Allow => CheckDecision::Proceed,
    }
}

/// Acts on the response check's policy, after the protected handler ran:
/// the outcome is cached either way; a denial replaces the handler's
/// response with an unauthorized one.
pub fn record_response_policy(cache: &mut Cache, key: &CacheKey, policy: FirewallPolicy) -> (d:
    CheckDecision)
    ensures
        final(cache).is_active() == old(cache).is_active(),
        final(cache)@ == if old(cache).is_active() {
            old(cache)@.insert(key@, policy)
        } else {
            old(cache)@
        },
        d == match policy {
            FirewallPolicy::Deny => CheckDecision::Unauthorized,
            FirewallPolicy::Allow => CheckDecision::Proceed,
        },
{
    cache.insert(key.clone(), policy);
    match policy {
        FirewallPolicy::Deny => CheckDecision::Unauthorized,
        FirewallPolicy::Allow => CheckDecision::Proceed,
    }
}

/// Where a single request stands in its pipeline. The remote checks of
/// one request are strictly sequential: connection, then request, then —
/// after the protected handler — response; no step can be skipped or
/// reordered.
#[derive(Clone, Copy, Debug, PartialEq, Eq, Structural)]
pub enum FlowState {
    /// Nothing done yet; the cache decides what happens first.
    Start,
    /// The connection check is in flight.
    AwaitingTcp,
    /// The request check is in flight.
    AwaitingRequestCheck,
    /// The protected handler is running; `response_check` says whether a
    /// response check follows (a cache-approved request skips it).
    AwaitingHandler { response_check: bool },
    /// The response check is in flight.
    AwaitingResponseCheck,
    /// The request is answered.
    Done,
}

/// What the runtime observed for the request.
pub enum FlowEvent {
    /// The request arrived.
    Begin,
    /// The connection check resolved.
    TcpResult(Result<AppGuardTcpResponse, GrcpError>),
    /// The request check resolved.
    RequestPolicy(Result<AppGuardResponse, GrcpError>),
    /// The protected handler returned.
    HandlerDone,
    /// The response check resolved.
    ResponsePolicy(Result<AppGuardResponse, GrcpError>),
}

/// What the runtime must do next for the request.
pub enum FlowInstruction {
    /// Run the connection check.
    CallTcp,
    /// Run the request check.
    CallRequestCheck,
    /// Run the protected handler.
    RunHandler,
    /// Run the response check.
    CallResponseCheck,
    /// Answer with an unauthorized response.
    RespondUnauthorized,
    /// Answer with an internal-error response.
    RespondInternalError,
    /// Answer with the handler's own response.
    RespondWithHandler,
}

/// True when the event is the one the state is waiting for.
pub open spec fn event_fits(state: FlowState, event: FlowEvent) -> bool {
    match event {
        FlowEvent::Begin => state == FlowState::Start,
        FlowEvent::TcpResult(_) => state == FlowState::AwaitingTcp,
        FlowEvent::RequestPolicy(_) => state == FlowState::AwaitingRequestCheck,
        FlowEvent::HandlerDone => state matches FlowState::AwaitingHandler { .. },
        FlowEvent::ResponsePolicy(_) => state == FlowState::AwaitingResponseCheck,
    }
}

/// The pipeline of one mediated request. Its fingerprint is fixed at
/// construction; the cache is consulted and written exactly as the
/// decision functions above say.
pub struct RequestFlow {
    pub key: CacheKey,
    pub state: FlowState,
}

impl RequestFlow {
    /// A pipeline about to begin, for this fingerprint.
    pub fn new(key: CacheKey) -> (f: Self)
        ensures
            f.state == FlowState::Start,
            f.key == key,
    {
        RequestFlow { key, state: FlowState::Start }
    }

    /// Advances the request by one observed event.
    ///
    /// From the start, a cached denial answers at once and a cached
    /// approval runs the handler with no remote call; otherwise the
    /// three checks run strictly in order around the handler, a denial
    /// anywhere is recorded and answers unauthorized, a failed check
    /// answers with an internal error and records nothing, and a clean
    /// pass records the approval and hands the handler's response out.
    pub fn step(&mut self, cache: &mut Cache, event: FlowEvent) -> (i: FlowInstruction)
        requires
            event_fits(old(self).state, event),
        ensures
            final(self).key == old(self).key,
            final(cache).is_active() == old(cache).is_active(),
            match event {
                FlowEvent::Begin => {
                    &&& final(cache)@ == old(cache)@
                    &&& if old(cache).is_active() && old(cache)@.contains_key(old(self).key@) {
                        if old(cache)@[old(self).key@] == FirewallPolicy::Deny {
                            final(self).state == FlowState::Done && i is RespondUnauthorized
                        } else {
                            final(self).state == (FlowState::AwaitingHandler {
                                response_check: false,
                            }) && i is RunHandler
                        }
                    } else {
                        final(self).state == FlowState::AwaitingTcp && i is CallTcp
                    }
                },
                FlowEvent::TcpResult(r) => {
                    &&& final(cache)@ == old(cache)@
                    &&& match r {
                        Ok(_) => final(self).state == FlowState::AwaitingRequestCheck
                            && i is CallRequestCheck,
                        Err(_) => final(self).state == FlowState::Done
                            && i is RespondInternalError,
                    }
                },
                FlowEvent::RequestPolicy(r) => match r {
                    Ok(resp) => {
                        if resp.policy == FirewallPolicy::Deny {
                            &&& final(self).state == FlowState::Done
                            &&& i is RespondUnauthorized
                            &&& final(cache)@ == if old(cache).is_active() {
                                old(cache)@.insert(old(self).key@, FirewallPolicy::Deny)
                            } else {
                                old(cache)@
                            }
                        } else {
                            &&& final(self).state == (FlowState::AwaitingHandler {
                                response_check: true,
                            })
                            &&& i is RunHandler
                            &&& final(cache)@ == old(cache)@
                        }
                    },
                    Err(_) => {
                        &&& final(self).state == FlowState::Done
                        &&& i is RespondInternalError
                        &&& final(cache)@ == old(cache)@
                    },
                },
                FlowEvent::HandlerDone => {
                    &&& final(cache)@ == old(cache)@
                    &&& if old(self).state == (FlowState::AwaitingHandler {
                        response_check: true,
                    }) {
                        final(self).state == FlowState::AwaitingResponseCheck
                            && i is CallResponseCheck
                    } else {
                        final(self).state == FlowState::Done && i is RespondWithHandler
                    }
                },
                FlowEvent::ResponsePolicy(r) => match r {
                    Ok(resp) => {
                        &&& final(cache)@ == if old(cache).is_active() {
                            old(cache)@.insert(old(self).key@, resp.policy)
                        } else {
                            old(cache)@
                        }
                        &&& final(self).state == FlowState::Done
                        &&& if resp.policy == FirewallPolicy::Deny {
                            i is RespondUnauthorized
                        } else {
                            i is RespondWithHandler
                        }
                    },
                    Err(_) => {
                        &&& final(self).state == FlowState::Done
                        &&& i is RespondInternalError
                        &&& final(cache)@ == old(cache)@
                    },
                },
            },
    {
        match event {
            FlowEvent::Begin => match initial_decision(cache, &self.key) {
                InitialDecision::DenyFromCache => {
                    self.state = FlowState::Done;
                    FlowInstruction::RespondUnauthorized
                },
                InitialDecision::AllowFromCache => {
                    self.state = FlowState::AwaitingHandler { response_check: false };
                    FlowInstruction::RunHandler
                },
                InitialDecision::Evaluate => {
                    self.state = FlowState::AwaitingTcp;
                    FlowInstruction::CallTcp
                },
            },
            FlowEvent::TcpResult(r) => match r {
                Ok(_) => {
                    self.state = FlowState::AwaitingRequestCheck;
                    FlowInstruction::CallRequestCheck
                },
                Err(_) => {
                    self.state = FlowState::Done;
                    FlowInstruction::RespondInternalError
                },
            },
            FlowEvent::RequestPolicy(r) => match classify_remote_result(r) {
                RemoteOutcome::Policy(policy) => {
                    match record_request_policy(cache, &self.key, policy) {
                        CheckDecision::Unauthorized => {
                            self.state = FlowState::Done;
                            FlowInstruction::RespondUnauthorized
                        },
                        CheckDecision::Proceed => {
                            self.state = FlowState::AwaitingHandler { response_check: true };
                            FlowInstruction::RunHandler
                        },
                    }
                },
                RemoteOutcome::InternalError => {
                    self.state = FlowState::Done;
                    FlowInstruction::RespondInternalError
                },
            },
            FlowEvent::HandlerDone => match self.state {
                FlowState::AwaitingHandler { response_check: true } => {
                    self.state = FlowState::AwaitingResponseCheck;
                    FlowInstruction::CallResponseCheck
                },
                _ => {
                    self.state = FlowState::Done;
                    FlowInstruction::RespondWithHandler
                },
            },
            FlowEvent::ResponsePolicy(r) => match classify_remote_result(r) {
                RemoteOutcome::Policy(policy) => {
                    match record_response_policy(cache, &self.key, policy) {
                        CheckDecision::Unauthorized => {
                            self.state = FlowState::Done;
                            FlowInstruction::RespondUnauthorized
                        },
                        CheckDecision::Proceed => {
                            self.state = FlowState::Done;
                            FlowInstruction::RespondWithHandler
                        },
                    }
                },
                RemoteOutcome::InternalError => {
                    self.state = FlowState::Done;
                    FlowInstruction::RespondInternalError
                },
            },
        }
    }
}

/// Once a request's denial has been recorded, a structurally identical
/// request — same fingerprint, however its maps were ordered — is
/// refused from the cache alone, with no remote call.
pub proof fn lemma_cached_denial_short_circuits(
    cache: &Cache,
    key: &CacheKey,
    key2: &CacheKey,
    d: InitialDecision,
)
    requires
        cache.is_active(),
        cache@.contains_key(key@),
        cache@[key@] == FirewallPolicy::Deny,
        key2@ == key@,
        call_ensures(initial_decision, (cache, key2), d),
    ensures
        d == InitialDecision::DenyFromCache,
{
}

} // verus!
