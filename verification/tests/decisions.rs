use guardnest_proxy::blocklist::Blocklist;
use guardnest_proxy::blocklist::BlocklistCache;
use guardnest_proxy::handler::connect_decision;
use guardnest_proxy::handler::initial_action;
use guardnest_proxy::handler::plan_with_cache;
use guardnest_proxy::handler::read_step;
use guardnest_proxy::handler::upstream_action;
use guardnest_proxy::handler::Decision;
use guardnest_proxy::handler::InitialAction;
use guardnest_proxy::handler::ReadOutcome;
use guardnest_proxy::handler::ReadStep;
use guardnest_proxy::handler::UpstreamOutcome;
use guardnest_proxy::request::parse_request;
use guardnest_proxy::response::response_bytes;
use guardnest_proxy::response::ResponseLine;
use guardnest_proxy::tunnel::TunnelDir;
use guardnest_proxy::tunnel::TunnelEvent;

fn cache_with(hosts: &[&[u8]]) -> BlocklistCache {
    let mut list = Blocklist::new();
    for h in hosts {
        list.insert(h.to_vec());
    }
    let mut cache = BlocklistCache::new();
    cache.apply_fetch(Some(list));
    cache
}

#[test]
fn response_lines_are_the_exact_literals() {
    assert_eq!(
        response_bytes(ResponseLine::Established),
        b"HTTP/1.1 200 Connection Established\r\n\r\n".to_vec()
    );
    assert_eq!(
        response_bytes(ResponseLine::Forbidden),
        b"HTTP/1.1 403 Forbidden\r\n\r\n".to_vec()
    );
    assert_eq!(
        response_bytes(ResponseLine::BadGateway),
        b"HTTP/1.1 502 Bad Gateway\r\n\r\n".to_vec()
    );
    assert_eq!(
        response_bytes(ResponseLine::GatewayTimeout),
        b"HTTP/1.1 504 Gateway Timeout\r\n\r\n".to_vec()
    );
}

#[test]
fn read_step_decisions() {
    assert_eq!(read_step(ReadOutcome::Bytes(0)), ReadStep::CloseSilent);
    assert_eq!(read_step(ReadOutcome::Bytes(17)), ReadStep::Parse);
    assert_eq!(read_step(ReadOutcome::TimedOut), ReadStep::CloseSilent);
    assert_eq!(read_step(ReadOutcome::Failed), ReadStep::AbandonError);
}

#[test]
fn connect_decision_fails_closed() {
    assert_eq!(connect_decision(Some(true)), Decision::Blocked);
    assert_eq!(connect_decision(Some(false)), Decision::Allowed);
    assert_eq!(connect_decision(None), Decision::Blocked);
}

#[test]
fn scenario_blocked_connect_gets_forbidden() {
    // Blocklist {"badsite.test"}; CONNECT badsite.test:443 is answered 403
    // and no upstream connect is attempted.
    let cache = cache_with(&[b"badsite.test"]);
    let req = parse_request(b"CONNECT badsite.test:443 HTTP/1.1\r\nHost: badsite.test\r\n\r\n");
    let action = plan_with_cache(&req, Some(&cache));
    assert!(matches!(action, InitialAction::SendForbidden));
    assert_eq!(
        response_bytes(ResponseLine::Forbidden),
        b"HTTP/1.1 403 Forbidden\r\n\r\n".to_vec()
    );
}

#[test]
fn scenario_allowed_connect_tunnels() {
    // Empty blocklist; CONNECT example.org:443 with a reachable upstream is
    // answered 200 and the tunnel relays bytes unchanged, both directions.
    let cache = cache_with(&[]);
    let req = parse_request(b"CONNECT example.org:443 HTTP/1.1\r\n\r\n");
    let action = plan_with_cache(&req, Some(&cache));
    match action {
        InitialAction::OpenUpstream(target) => assert_eq!(target, b"example.org:443".to_vec()),
        other => panic!("expected an upstream attempt, got {:?}", other),
    }
    let (line, tunnel) = upstream_action(UpstreamOutcome::Connected);
    assert_eq!(line, ResponseLine::Established);
    assert!(tunnel);
    assert_eq!(
        response_bytes(line),
        b"HTTP/1.1 200 Connection Established\r\n\r\n".to_vec()
    );

    let mut client_to_server = TunnelDir::new();
    let mut server_to_client = TunnelDir::new();
    let up = client_to_server.on_read(TunnelEvent::Data(b"GET /secret".to_vec()));
    assert_eq!(up, Some(b"GET /secret".to_vec()));
    let down = server_to_client.on_read(TunnelEvent::Data(b"200 body".to_vec()));
    assert_eq!(down, Some(b"200 body".to_vec()));
}

#[test]
fn scenario_upstream_timeout_gets_gateway_timeout() {
    // CONNECT to an unreachable host whose connect exceeds its timeout.
    let cache = cache_with(&[]);
    let req = parse_request(b"CONNECT unreachable.test:443 HTTP/1.1\r\n\r\n");
    assert!(matches!(
        plan_with_cache(&req, Some(&cache)),
        InitialAction::OpenUpstream(_)
    ));
    let (line, tunnel) = upstream_action(UpstreamOutcome::ConnectTimedOut);
    assert_eq!(line, ResponseLine::GatewayTimeout);
    assert!(!tunnel);
    assert_eq!(
        response_bytes(line),
        b"HTTP/1.1 504 Gateway Timeout\r\n\r\n".to_vec()
    );
}

#[test]
fn upstream_connect_error_gets_bad_gateway() {
    let (line, tunnel) = upstream_action(UpstreamOutcome::ConnectFailed);
    assert_eq!(line, ResponseLine::BadGateway);
    assert!(!tunnel);
    assert_eq!(
        response_bytes(line),
        b"HTTP/1.1 502 Bad Gateway\r\n\r\n".to_vec()
    );
}

#[test]
fn scenario_plain_http_closes_silently() {
    // A plain GET is never answered and never forwarded.
    let cache = cache_with(&[b"example.org"]);
    let req = parse_request(b"GET / HTTP/1.1\r\nHost: example.org\r\n\r\n");
    let action = plan_with_cache(&req, Some(&cache));
    assert!(matches!(action, InitialAction::CloseSilent));
}

#[test]
fn unsupported_request_closes_silently() {
    let cache = cache_with(&[]);
    let req = parse_request(b"BOGUS\r\n\r\n");
    assert!(matches!(
        plan_with_cache(&req, Some(&cache)),
        InitialAction::CloseSilent
    ));
}

#[test]
fn decide_request_runs_parse_and_plan_in_one_step() {
    let cache = cache_with(&[b"badsite.test"]);
    let (req, action) =
        guardnest_proxy::handler::decide_request(b"CONNECT badsite.test:443 HTTP/1.1\r\n\r\n", Some(&cache));
    assert!(matches!(req, guardnest_proxy::request::Request::Connect { .. }));
    assert!(matches!(action, InitialAction::SendForbidden));
    let (_, allowed) =
        guardnest_proxy::handler::decide_request(b"CONNECT fine.test:443 HTTP/1.1\r\n\r\n", Some(&cache));
    match allowed {
        InitialAction::OpenUpstream(target) => assert_eq!(target, b"fine.test:443".to_vec()),
        other => panic!("expected an upstream attempt, got {:?}", other),
    }
    let (_, poisoned) =
        guardnest_proxy::handler::decide_request(b"CONNECT fine.test:443 HTTP/1.1\r\n\r\n", None);
    assert!(matches!(poisoned, InitialAction::SendForbidden));
}

#[test]
fn poisoned_lock_blocks_connect() {
    let req = parse_request(b"CONNECT example.org:443 HTTP/1.1\r\n\r\n");
    let action = plan_with_cache(&req, None);
    assert!(matches!(action, InitialAction::SendForbidden));
    let action2 = initial_action(&req, None);
    assert!(matches!(action2, InitialAction::SendForbidden));
}

#[test]
fn tunnel_direction_endings() {
    let mut d = TunnelDir::new();
    assert!(d.closed.is_none());
    let w = d.on_read(TunnelEvent::Eof);
    assert!(w.is_none());
    assert_eq!(
        d.closed,
        Some(guardnest_proxy::tunnel::CloseReason::Orderly)
    );

    let mut idle = TunnelDir::new();
    assert!(idle.on_read(TunnelEvent::TimedOut).is_none());
    assert_eq!(idle.closed, Some(guardnest_proxy::tunnel::CloseReason::Idle));

    let mut failed = TunnelDir::new();
    assert!(failed.on_read(TunnelEvent::Failed).is_none());
    assert_eq!(
        failed.closed,
        Some(guardnest_proxy::tunnel::CloseReason::Error)
    );
}

#[test]
fn idle_direction_ends_whole_tunnel() {
    // One direction idle past its timeout: the tunnel as a whole is over,
    // even though the other direction never saw an event.
    let mut a = TunnelDir::new();
    let b = TunnelDir::new();
    a.on_read(TunnelEvent::TimedOut);
    assert!(a.closed.is_some() || b.closed.is_some());
}
