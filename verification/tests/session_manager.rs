use mcp_proxy::session_manager::{BackendState, ProxyAwareSessionManager, Verdict};
use mcp_proxy::time::Duration;

fn up(version: u64) -> BackendState {
    BackendState {
        available: true,
        version,
    }
}

fn down(version: u64) -> BackendState {
    BackendState {
        available: false,
        version,
    }
}

#[test]
fn sessions_are_kept_for_half_an_hour() {
    let manager = ProxyAwareSessionManager::new();
    assert_eq!(manager.keep_alive(), Duration::from_secs(1800));
    assert_eq!(
        ProxyAwareSessionManager::DEFAULT_SESSION_KEEP_ALIVE_SECS,
        1800
    );
    let short = ProxyAwareSessionManager::with_keep_alive(Duration::from_secs(9));
    assert_eq!(short.keep_alive(), Duration::from_secs(9));
}

#[test]
fn session_ends_with_a_reconnect() {
    let mut manager = ProxyAwareSessionManager::new();
    manager.create_session("s".into(), 1);
    assert_eq!(manager.initialize_session("s", up(1)), Verdict::Forward);
    assert_eq!(manager.create_stream("s", up(1)), Verdict::Forward);
    assert_eq!(manager.accept_message("s", up(1)), Verdict::Forward);
    assert_eq!(manager.has_session("s", 1), Verdict::Forward);
    assert_eq!(manager.resume("s", up(1)), Verdict::Forward);
    assert!(manager.check_backend_version("s", 1));

    assert_eq!(manager.initialize_session("s", up(2)), Verdict::NotFound);
    assert_eq!(manager.create_stream("s", up(2)), Verdict::NotFound);
    assert_eq!(manager.accept_message("s", up(2)), Verdict::NotFound);
    assert_eq!(manager.has_session("s", 2), Verdict::NotFound);
    assert!(!manager.check_backend_version("s", 2));
    assert_eq!(manager.create_standalone_stream(), Verdict::Forward);

    assert_eq!(manager.resume("s", up(2)), Verdict::CloseAndNotFound);
    assert!(manager.check_backend_version("s", 2));
    assert_eq!(manager.resume("s", up(2)), Verdict::Forward);
}

#[test]
fn nothing_is_served_while_disconnected() {
    let mut manager = ProxyAwareSessionManager::new();
    manager.create_session("s".into(), 1);
    assert_eq!(manager.initialize_session("s", down(1)), Verdict::NotFound);
    assert_eq!(manager.create_stream("s", down(1)), Verdict::NotFound);
    assert_eq!(manager.accept_message("s", down(1)), Verdict::NotFound);
    assert_eq!(manager.resume("s", down(1)), Verdict::NotFound);
    assert_eq!(manager.resume("s", up(1)), Verdict::Forward);
    assert_eq!(manager.resume("s", down(2)), Verdict::CloseAndNotFound);
}

#[test]
fn sessions_do_not_touch_each_other() {
    let mut manager = ProxyAwareSessionManager::new();
    manager.create_session("a".into(), 1);
    manager.create_session("b".into(), 2);
    assert_eq!(manager.resume("a", up(2)), Verdict::CloseAndNotFound);
    assert_eq!(manager.resume("b", up(2)), Verdict::Forward);
    manager.close_session("b");
    assert!(manager.check_backend_version("b", 7));
    manager.create_session("b".into(), 3);
    manager.create_session("b".into(), 4);
    assert!(manager.check_backend_version("b", 4));
    assert!(!manager.check_backend_version("b", 3));
    assert!(manager.check_backend_version("unknown", 9));
}
