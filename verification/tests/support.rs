use cadence::{ServerAction, ServerEvent, TempDir, UnixSocketServer};

#[test]
fn temp_dir_joins_base_and_name() {
    let dir = TempDir::new(String::from("/tmp/cadence-tests"));
    assert_eq!("/tmp/cadence-tests/cadence.sock", dir.new_path("cadence.sock"));
}

#[test]
fn server_starts_not_ready_and_becomes_ready() {
    let mut server = UnixSocketServer::new("/tmp/cadence.sock", 100);
    assert!(!server.is_ready());
    server.mark_ready();
    assert!(server.is_ready());
}

#[test]
fn server_discards_valid_datagrams_and_reports_bad_ones() {
    let server = UnixSocketServer::new("/tmp/cadence.sock", 100);
    assert_eq!(
        ServerAction::Continue,
        server.on_event(ServerEvent::Received { valid: true })
    );
    assert_eq!(
        ServerAction::ReportDecodeError,
        server.on_event(ServerEvent::Received { valid: false })
    );
    assert_eq!(ServerAction::ReportIoError, server.on_event(ServerEvent::Failed));
}

#[test]
fn server_stops_only_at_a_timeout_after_shutdown() {
    let mut server = UnixSocketServer::new("/tmp/cadence.sock", 100);
    assert_eq!(ServerAction::Continue, server.on_event(ServerEvent::TimedOut));
    server.request_shutdown();
    assert_eq!(
        ServerAction::Continue,
        server.on_event(ServerEvent::Received { valid: true })
    );
    assert_eq!(ServerAction::Stop, server.on_event(ServerEvent::TimedOut));
}
