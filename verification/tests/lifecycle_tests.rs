use guardnest_proxy::acceptor::accept_step;
use guardnest_proxy::acceptor::health_verdict;
use guardnest_proxy::acceptor::AcceptAction;
use guardnest_proxy::config;
use guardnest_proxy::lifecycle::restart_plan;
use guardnest_proxy::lifecycle::start_plan;
use guardnest_proxy::lifecycle::stop_plan;
use guardnest_proxy::lifecycle::LifecycleAction;
use guardnest_proxy::lifecycle::LifecycleController;
use guardnest_proxy::lifecycle::StartReply;
use guardnest_proxy::logger::ProxyLogger;
use guardnest_proxy::system::SystemProxyError;
use guardnest_proxy::system::WindowsSystemProxy;

/// Replays an action sequence against a listener count, the way the
/// shell's world evolves: a broadcast stops the running instance's
/// accept loop, a spawn binds one listener.
fn replay(mut listeners: u32, actions: &[LifecycleAction]) -> u32 {
    for a in actions {
        match a {
            LifecycleAction::Broadcast => listeners = 0,
            LifecycleAction::Spawn => listeners += 1,
            _ => {}
        }
    }
    listeners
}

#[test]
fn controller_slot_round_trip() {
    let mut c: LifecycleController<u32> = LifecycleController::new();
    assert!(c.stored_ref().is_none());
    assert!(!c.status(false));
    c.install(7);
    assert_eq!(c.stored_ref(), Some(&7));
    assert!(c.status(true));
    assert!(!c.status(false));
    assert_eq!(c.take(), Some(7));
    assert!(c.stored_ref().is_none());
    assert_eq!(c.take(), None);
}

#[test]
fn second_start_while_running_is_refused() {
    let mut c: LifecycleController<u32> = LifecycleController::new();
    assert!(c.start_gate(false));
    c.install(1);
    // The stored instance is alive: no second spawn, and the reply says so.
    assert!(!c.start_gate(true));
    let (reply, actions) = start_plan(true);
    assert_eq!(reply, StartReply::AlreadyRunning);
    assert!(actions.is_empty());
    assert_eq!(replay(1, &actions), 1);
}

#[test]
fn start_after_finish_spawns_again() {
    let mut c: LifecycleController<u32> = LifecycleController::new();
    c.install(1);
    // The stored task finished: a new start may proceed.
    assert!(c.start_gate(false));
    let (reply, actions) = start_plan(false);
    assert_eq!(reply, StartReply::Started);
    assert_eq!(
        actions,
        vec![
            LifecycleAction::Spawn,
            LifecycleAction::EnableOsProxy,
            LifecycleAction::AddFirewallRules,
        ]
    );
    assert_eq!(replay(0, &actions), 1);
}

#[test]
fn stop_plan_shuts_down_then_unconfigures() {
    let actions = stop_plan();
    assert_eq!(
        actions,
        vec![
            LifecycleAction::Broadcast,
            LifecycleAction::AwaitOld,
            LifecycleAction::DisableOsProxy,
            LifecycleAction::RemoveFirewallRules,
        ]
    );
    assert_eq!(replay(1, &actions), 0);
    assert_eq!(replay(0, &actions), 0);
}

#[test]
fn restart_leaves_exactly_one_listener() {
    let actions = restart_plan();
    assert_eq!(
        actions,
        vec![
            LifecycleAction::Broadcast,
            LifecycleAction::AwaitOld,
            LifecycleAction::Spawn,
            LifecycleAction::EnableOsProxy,
            LifecycleAction::AddFirewallRules,
        ]
    );
    // From a running state and from a stopped one alike.
    assert_eq!(replay(1, &actions), 1);
    assert_eq!(replay(0, &actions), 1);
    // The spawn comes only after the old instance was stopped and awaited.
    let spawn_at = actions
        .iter()
        .position(|a| *a == LifecycleAction::Spawn)
        .unwrap();
    let broadcast_at = actions
        .iter()
        .position(|a| *a == LifecycleAction::Broadcast)
        .unwrap();
    let await_at = actions
        .iter()
        .position(|a| *a == LifecycleAction::AwaitOld)
        .unwrap();
    assert!(broadcast_at < await_at && await_at < spawn_at);
}

#[test]
fn accept_step_is_biased_toward_shutdown() {
    assert_eq!(accept_step(true, true), AcceptAction::StopLoop);
    assert_eq!(accept_step(true, false), AcceptAction::StopLoop);
    assert_eq!(accept_step(false, true), AcceptAction::SpawnHandler);
    assert_eq!(accept_step(false, false), AcceptAction::BackoffRetry);
}

#[test]
fn health_probe_is_advisory() {
    assert!(!health_verdict(true));
    assert!(health_verdict(false));
}

#[test]
fn system_check_classifies_versions() {
    let c = WindowsSystemProxy::system_check(true, true, 10, 0);
    assert!(c.is_windows && c.is_64bit && c.is_win10_or_later);
    let old = WindowsSystemProxy::system_check(true, false, 6, 1);
    assert!(old.is_windows && !old.is_64bit && !old.is_win10_or_later);
    let later = WindowsSystemProxy::system_check(true, true, 11, 0);
    assert!(later.is_win10_or_later);
    let not_windows = WindowsSystemProxy::system_check(false, true, 10, 0);
    assert!(!not_windows.is_win10_or_later);
}

#[test]
fn log_lines_are_composed_exactly() {
    assert_eq!(
        ProxyLogger::start_message("127.0.0.1:3000"),
        "Proxy running at http://127.0.0.1:3000".to_string()
    );
    assert_eq!(
        ProxyLogger::connection_established_message("example.org:443"),
        "Connection established to example.org:443".to_string()
    );
    assert_eq!(
        ProxyLogger::connection_failed_message("example.org:443", "refused"),
        "Failed to connect to example.org:443: refused".to_string()
    );
    assert_eq!(
        ProxyLogger::error_message("client handling", "broken pipe"),
        "Error in client handling: broken pipe".to_string()
    );
}

#[test]
fn system_proxy_error_messages() {
    let e = SystemProxyError::RegistryError("denied".to_string());
    assert_eq!(e.message(), "Registry error: denied".to_string());
    let e2 = SystemProxyError::ProcessError("spawn failed".to_string());
    assert_eq!(e2.message(), "Process error: spawn failed".to_string());
}

#[test]
fn configuration_constants() {
    assert_eq!(config::PROXY_PORT, 3000);
    assert_eq!(config::REQUEST_BUFFER_BYTES, 4096);
    assert_eq!(config::TUNNEL_BUFFER_BYTES, 8192);
    assert_eq!(config::CLIENT_READ_TIMEOUT_SECS, 10);
    assert_eq!(config::UPSTREAM_CONNECT_TIMEOUT_SECS, 10);
    assert_eq!(config::TUNNEL_IDLE_TIMEOUT_SECS, 30);
    assert_eq!(config::BLOCKLIST_REFRESH_SECS, 30);
    assert_eq!(config::HEALTH_CHECK_INTERVAL_SECS, 30);
    assert_eq!(config::ACCEPT_ERROR_BACKOFF_MILLIS, 100);
    assert_eq!(config::SHUTDOWN_WAIT_SECS, 5);
    assert_eq!(config::LISTENER_WARMUP_MILLIS, 500);
    assert_eq!(config::SHUTDOWN_CHANNEL_CAPACITY, 1);
}
