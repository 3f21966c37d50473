use appguard_agent::cache::Cache;
use appguard_agent::commands::SetFirewallDefaultsCommand;
use appguard_agent::context::Context;
use appguard_agent::error::GrcpError;
use appguard_agent::http::{
    build_query_map, convert_headers, internal_server_error_response, to_appguard_http_request,
    to_appguard_http_response, to_cache_key, unauthorized_response,
};
use appguard_agent::policy::{FirewallDefaults, FirewallPolicy};
use appguard_agent::remote::{
    AppGuardResponse, AppGuardTcpConnection, AppGuardTcpResponse, default_tcp_response,
    wait_until_timeout_policy, wait_until_timeout_tcp,
};
use appguard_agent::request_flow::{
    CheckDecision, FlowEvent, FlowInstruction, FlowState, InitialDecision, RemoteOutcome,
    RequestFlow, classify_remote_result, initial_decision, record_request_policy,
    record_response_policy,
};
use appguard_agent::secrets::SecretStore;
use appguard_agent::token_wrapper::TokenWrapper;

fn enabled_cache() -> Cache {
    Cache::new(FirewallDefaults { timeout: Some(500), policy: FirewallPolicy::Deny, cache: true })
}

fn connection() -> AppGuardTcpConnection {
    AppGuardTcpConnection {
        token: "tok".to_owned(),
        source_ip: Some("10.0.0.1".to_owned()),
        source_port: Some(40000),
        destination_ip: None,
        destination_port: None,
        protocol: "https".to_owned(),
    }
}

#[test]
fn timeout_substitutes_default_policy() {
    // A 500 ms deadline with a 600 ms call: the configured default comes
    // back as a success, not an error.
    let r = wait_until_timeout_policy(
        Some(500),
        600,
        Err(GrcpError::new("would have been an error")),
        FirewallPolicy::Deny,
    );
    match r {
        Ok(resp) => assert_eq!(resp.policy, FirewallPolicy::Deny),
        Err(_) => panic!("a timeout is never an error"),
    }
}

#[test]
fn within_deadline_surfaces_real_outcome() {
    let r = wait_until_timeout_policy(
        Some(500),
        400,
        Ok(AppGuardResponse { policy: FirewallPolicy::Allow }),
        FirewallPolicy::Deny,
    );
    assert_eq!(r.ok().map(|resp| resp.policy), Some(FirewallPolicy::Allow));

    let r = wait_until_timeout_policy(
        Some(500),
        400,
        Err(GrcpError::new("transport down")),
        FirewallPolicy::Deny,
    );
    assert_eq!(r.err().map(|e| e.message().clone()), Some("transport down".to_owned()));
}

#[test]
fn no_deadline_awaits_outcome() {
    let r = wait_until_timeout_policy(
        None,
        10_000,
        Ok(AppGuardResponse { policy: FirewallPolicy::Allow }),
        FirewallPolicy::Deny,
    );
    assert_eq!(r.ok().map(|resp| resp.policy), Some(FirewallPolicy::Allow));
}

#[test]
fn tcp_timeout_echoes_connection() {
    let r = wait_until_timeout_tcp(
        Some(500),
        600,
        Err(GrcpError::new("too slow")),
        connection(),
    );
    let info = r.ok().unwrap().tcp_info.unwrap();
    let echoed = info.connection.unwrap();
    assert_eq!(echoed.source_ip, Some("10.0.0.1".to_owned()));
    assert_eq!(echoed.protocol, "https".to_owned());

    let real = AppGuardTcpResponse { tcp_info: None };
    let r = wait_until_timeout_tcp(Some(500), 100, Ok(real), connection());
    assert!(r.ok().unwrap().tcp_info.is_none());

    let d = default_tcp_response(connection());
    assert_eq!(d.tcp_info.unwrap().connection.unwrap().token, "tok".to_owned());
}

#[test]
fn flow_denial_is_cached_and_served_without_remote_call() {
    // End-to-end: the first structurally identical request goes through
    // the remote path and caches the denial; the second is refused from
    // the cache alone.
    let mut cache = enabled_cache();
    let key1 = to_cache_key(
        "/admin".to_owned(),
        "GET".to_owned(),
        "b=2&a=1",
        &vec![("Host".to_owned(), "h".to_owned())],
        "".to_owned(),
        "10.0.0.1".to_owned(),
    );
    assert_eq!(initial_decision(&cache, &key1), InitialDecision::Evaluate);
    let outcome = classify_remote_result(Ok(AppGuardResponse { policy: FirewallPolicy::Deny }));
    let policy = match outcome {
        RemoteOutcome::Policy(p) => p,
        RemoteOutcome::InternalError => panic!("remote answered"),
    };
    assert_eq!(record_request_policy(&mut cache, &key1, policy), CheckDecision::Unauthorized);

    // Same request, query parameters arriving in the other order.
    let key2 = to_cache_key(
        "/admin".to_owned(),
        "GET".to_owned(),
        "a=1&b=2",
        &vec![("host".to_owned(), "h".to_owned())],
        "".to_owned(),
        "10.0.0.1".to_owned(),
    );
    assert_eq!(initial_decision(&cache, &key2), InitialDecision::DenyFromCache);
}

#[test]
fn flow_approval_allows_and_caches_after_response_check() {
    let mut cache = enabled_cache();
    let key = to_cache_key(
        "/".to_owned(),
        "GET".to_owned(),
        "",
        &Vec::new(),
        "".to_owned(),
        "10.0.0.1".to_owned(),
    );
    assert_eq!(record_request_policy(&mut cache, &key, FirewallPolicy::Allow), CheckDecision::Proceed);
    assert_eq!(initial_decision(&cache, &key), InitialDecision::Evaluate);
    assert_eq!(
        record_response_policy(&mut cache, &key, FirewallPolicy::Allow),
        CheckDecision::Proceed
    );
    assert_eq!(initial_decision(&cache, &key), InitialDecision::AllowFromCache);
}

#[test]
fn pipeline_runs_checks_in_order_and_caches_approval() {
    let mut cache = enabled_cache();
    let key = to_cache_key(
        "/orders".to_owned(),
        "GET".to_owned(),
        "q=1",
        &Vec::new(),
        "".to_owned(),
        "10.0.0.9".to_owned(),
    );
    let mut flow = RequestFlow::new(key.clone());

    let i = flow.step(&mut cache, FlowEvent::Begin);
    assert!(matches!(i, FlowInstruction::CallTcp));
    assert_eq!(flow.state, FlowState::AwaitingTcp);

    let i = flow.step(
        &mut cache,
        FlowEvent::TcpResult(Ok(AppGuardTcpResponse { tcp_info: None })),
    );
    assert!(matches!(i, FlowInstruction::CallRequestCheck));

    let i = flow.step(
        &mut cache,
        FlowEvent::RequestPolicy(Ok(AppGuardResponse { policy: FirewallPolicy::Allow })),
    );
    assert!(matches!(i, FlowInstruction::RunHandler));

    let i = flow.step(&mut cache, FlowEvent::HandlerDone);
    assert!(matches!(i, FlowInstruction::CallResponseCheck));

    let i = flow.step(
        &mut cache,
        FlowEvent::ResponsePolicy(Ok(AppGuardResponse { policy: FirewallPolicy::Allow })),
    );
    assert!(matches!(i, FlowInstruction::RespondWithHandler));
    assert_eq!(flow.state, FlowState::Done);

    // A second identical request is approved from the cache and skips
    // every remote check.
    let mut flow2 = RequestFlow::new(key);
    let i = flow2.step(&mut cache, FlowEvent::Begin);
    assert!(matches!(i, FlowInstruction::RunHandler));
    let i = flow2.step(&mut cache, FlowEvent::HandlerDone);
    assert!(matches!(i, FlowInstruction::RespondWithHandler));
}

#[test]
fn pipeline_denial_at_request_check_answers_unauthorized() {
    let mut cache = enabled_cache();
    let key = to_cache_key(
        "/admin".to_owned(),
        "GET".to_owned(),
        "",
        &Vec::new(),
        "".to_owned(),
        "10.0.0.9".to_owned(),
    );
    let mut flow = RequestFlow::new(key.clone());
    flow.step(&mut cache, FlowEvent::Begin);
    flow.step(&mut cache, FlowEvent::TcpResult(Ok(AppGuardTcpResponse { tcp_info: None })));
    let i = flow.step(
        &mut cache,
        FlowEvent::RequestPolicy(Ok(AppGuardResponse { policy: FirewallPolicy::Deny })),
    );
    assert!(matches!(i, FlowInstruction::RespondUnauthorized));
    assert_eq!(cache.get(&key), Some(FirewallPolicy::Deny));
}

#[test]
fn pipeline_failed_check_answers_internal_error_and_caches_nothing() {
    let mut cache = enabled_cache();
    let key = to_cache_key(
        "/".to_owned(),
        "GET".to_owned(),
        "",
        &Vec::new(),
        "".to_owned(),
        "10.0.0.9".to_owned(),
    );
    let mut flow = RequestFlow::new(key.clone());
    flow.step(&mut cache, FlowEvent::Begin);
    let i = flow.step(&mut cache, FlowEvent::TcpResult(Err(GrcpError::new("transport down"))));
    assert!(matches!(i, FlowInstruction::RespondInternalError));
    assert_eq!(cache.get(&key), None);
}

#[test]
fn flow_remote_error_is_internal_error() {
    let o = classify_remote_result(Err(GrcpError::new("boom")));
    assert!(matches!(o, RemoteOutcome::InternalError));
}

#[test]
fn defaults_change_then_slow_call_yields_default() {
    // End-to-end: SetFirewallDefaults{timeout:500, policy:Deny,
    // cache:true} followed by a 600 ms request check yields Deny, not an
    // error.
    let mut ctx = Context::new(SecretStore::new());
    let defaults = FirewallDefaults { timeout: Some(500), policy: FirewallPolicy::Deny, cache: true };
    assert!(SetFirewallDefaultsCommand::new(defaults).execute(&mut ctx).is_ok());
    let r = wait_until_timeout_policy(
        ctx.firewall_defaults.timeout,
        600,
        Err(GrcpError::new("still waiting")),
        ctx.firewall_defaults.policy,
    );
    assert_eq!(r.ok().map(|resp| resp.policy), Some(FirewallPolicy::Deny));
}

#[test]
fn query_map_parses_raw_string() {
    let m = build_query_map("?foo=bar%20baz&panda=true");
    assert_eq!(m.get(&"foo".to_owned()), Some(&"bar baz".to_owned()));
    assert_eq!(m.get(&"panda".to_owned()), Some(&"true".to_owned()));
    assert_eq!(m.get(&"absent".to_owned()), None);

    let empty = build_query_map("");
    assert_eq!(empty.len(), 0);
}

#[test]
fn headers_are_lowercased() {
    let m = convert_headers(&vec![
        ("User-Agent".to_owned(), "ua".to_owned()),
        ("HOST".to_owned(), "h".to_owned()),
    ]);
    assert_eq!(m.get(&"user-agent".to_owned()), Some(&"ua".to_owned()));
    assert_eq!(m.get(&"host".to_owned()), Some(&"h".to_owned()));
    assert_eq!(m.get(&"User-Agent".to_owned()), None);
}

#[test]
fn request_descriptor_carries_parsed_maps() {
    let r = to_appguard_http_request(
        "tok".to_owned(),
        "/path".to_owned(),
        "POST".to_owned(),
        "a=1",
        &vec![("X-Test".to_owned(), "v".to_owned())],
        None,
        None,
    );
    assert_eq!(r.token, "tok".to_owned());
    assert_eq!(r.original_url, "/path".to_owned());
    assert_eq!(r.method, "POST".to_owned());
    assert_eq!(r.query.get(&"a".to_owned()), Some(&"1".to_owned()));
    assert_eq!(r.headers.get(&"x-test".to_owned()), Some(&"v".to_owned()));
    assert!(r.body.is_none());

    let resp = to_appguard_http_response(
        "tok".to_owned(),
        200,
        &vec![("Content-Type".to_owned(), "text/plain".to_owned())],
        None,
    );
    assert_eq!(resp.code, 200);
    assert_eq!(resp.headers.get(&"content-type".to_owned()), Some(&"text/plain".to_owned()));
}

#[test]
fn fixed_responses() {
    let u = unauthorized_response();
    assert_eq!(u.code, 401);
    assert_eq!(u.body, "Unauthorized".to_owned());
    let i = internal_server_error_response();
    assert_eq!(i.code, 500);
    assert_eq!(i.body, "Internal server error".to_owned());
}

#[test]
fn grcp_error_carries_message() {
    let e = GrcpError::new("some failure");
    assert_eq!(e.message(), &"some failure".to_owned());
}

#[test]
fn jwt_round_trip_reads_claims() {
    let payload = "eyJhY2NvdW50Ijp7InByb2ZpbGUiOm51bGwsImNvbnRhY3QiOm51bGwsImRldmljZSI6bnVsbCwib3JnYW5pemF0aW9uIjp7ImlkIjoib3JnLTEiLCJuYW1lIjoib3JnIiwiY29kZSI6Ik9SMSIsImNhdGVnb3JpZXMiOltdLCJzdGF0dXMiOiJBY3RpdmUiLCJvcmdhbml6YXRpb25faWQiOiJvcmctMSIsInBhcmVudF9vcmdhbml6YXRpb25faWQiOm51bGx9LCJpZCI6ImRldi0xIiwiYWNjb3VudF9pZCI6ImFjY3QtMSIsIm9yZ2FuaXphdGlvbl9pZCI6Im9yZy0xIiwiYWNjb3VudF9vcmdhbml6YXRpb25faWQiOm51bGwsImFjY291bnRfc3RhdHVzIjoiQWN0aXZlIiwicm9sZV9pZCI6bnVsbH0sImlhdCI6MTAwMDAwMDAwMCwiZXhwIjoyMDAwMDAwMDAwfQ";
    let jwt = format!("eyJhbGciOiJIUzI1NiIsInR5cCI6IkpXVCJ9.{}.sig", payload);
    let w = TokenWrapper::from_jwt(jwt.clone()).expect("the payload decodes");
    assert_eq!(w.info.iat, 1_000_000_000);
    assert_eq!(w.info.exp, 2_000_000_000);
    assert_eq!(w.jwt, jwt);
    // Expired well after the stated expiry, fresh well before it.
    assert!(w.is_expired(2_000_000_301));
    assert!(!w.is_expired(1_999_999_000));
}

#[test]
fn jwt_malformed_is_an_error() {
    assert!(TokenWrapper::from_jwt("not-a-jwt".to_owned()).is_err());
    assert!(TokenWrapper::from_jwt("a.b.c.d".to_owned()).is_err());
}
