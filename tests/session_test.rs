use vmonitor::backoff::backoff_delay;
use vmonitor::config::ConnectionConfig;
use vmonitor::connector::{build_uri, target_path, ConnectStep, Connector, HandshakeOutcome};
use vmonitor::session::{event_of_connect_step, Session, SessionEvent, SessionState};

fn policy(base: u64, max: u64, retries: i32) -> ConnectionConfig {
    ConnectionConfig { base_delay: base, max_delay: max, max_retries: retries }
}

#[test]
fn backoff_doubles_then_caps() {
    assert_eq!(backoff_delay(1, 60, 1), 1);
    assert_eq!(backoff_delay(1, 60, 2), 2);
    assert_eq!(backoff_delay(1, 60, 3), 4);
    assert_eq!(backoff_delay(1, 60, 6), 32);
    assert_eq!(backoff_delay(1, 60, 7), 60);
    assert_eq!(backoff_delay(3, 1000, 4), 24);
    assert_eq!(backoff_delay(1, u64::MAX, 16), 32768);
    assert_eq!(backoff_delay(1, u64::MAX, 40), 32768);
    assert_eq!(backoff_delay(u64::MAX, 100, 2), 100);
    assert_eq!(backoff_delay(5, 0, 1), 0);
}

#[test]
fn backoff_is_monotone_and_capped() {
    let mut prev = 0;
    for attempt in 1..40u64 {
        let d = backoff_delay(7, 100_000, attempt);
        assert!(d >= prev);
        assert!(d <= 100_000);
        prev = d;
    }
}

#[test]
fn unauthorized_ends_connect_immediately() {
    for retries in [-1, 0, 5] {
        let mut c = Connector::new(policy(1, 60, retries));
        assert!(matches!(c.on_outcome(HandshakeOutcome::Failed), ConnectStep::RetryAfter(_)) || retries == 0);
        let mut fresh = Connector::new(policy(1, 60, retries));
        assert_eq!(fresh.on_outcome(HandshakeOutcome::Unauthorized), ConnectStep::AuthFailed);
        assert_eq!(c.on_outcome(HandshakeOutcome::Unauthorized), ConnectStep::AuthFailed);
    }
}

#[test]
fn retry_budget_allows_n_plus_one_attempts() {
    for n in 0..5i32 {
        let mut c = Connector::new(policy(1, 60, n));
        let mut attempts = 0;
        loop {
            attempts += 1;
            match c.on_outcome(HandshakeOutcome::Failed) {
                ConnectStep::RetryAfter(_) => continue,
                step => {
                    assert_eq!(step, ConnectStep::RetriesExhausted);
                    break;
                }
            }
        }
        assert_eq!(attempts, n + 1);
    }
}

#[test]
fn retry_delays_follow_backoff() {
    let mut c = Connector::new(policy(2, 10, -1));
    let delays: Vec<ConnectStep> = (0..5).map(|_| c.on_outcome(HandshakeOutcome::Failed)).collect();
    assert_eq!(
        delays,
        vec![
            ConnectStep::RetryAfter(2),
            ConnectStep::RetryAfter(4),
            ConnectStep::RetryAfter(8),
            ConnectStep::RetryAfter(10),
            ConnectStep::RetryAfter(10),
        ]
    );
    assert_eq!(c.on_outcome(HandshakeOutcome::Connected), ConnectStep::Established);
}

#[test]
fn target_path_appends_collector_path_and_secret() {
    assert_eq!(target_path(None, "s3"), "/wss/probe?secret=s3");
    assert_eq!(
        target_path(Some(("/".to_string(), "/".to_string())), "abc"),
        "/wss/probe?secret=abc"
    );
    assert_eq!(
        target_path(Some(("/ws".to_string(), "/ws".to_string())), "abc"),
        "/ws?secret=abc"
    );
}

#[test]
fn build_uri_sets_path_and_query() {
    let uri = build_uri("wss://test.example.com", "test-secret").unwrap();
    assert_eq!(uri, "wss://test.example.com/wss/probe?secret=test-secret");
    let uri = build_uri("wss://test.example.com/", "abc").unwrap();
    assert_eq!(uri, "wss://test.example.com/wss/probe?secret=abc");
    let uri = build_uri("wss://test.example.com/ws", "test-secret").unwrap();
    assert_eq!(uri, "wss://test.example.com/ws?secret=test-secret");
    assert!(build_uri("not a url", "x").is_none());
    assert!(build_uri("wss://test.example.com/ws", "has space").is_none());
}

#[test]
fn lost_stream_backs_off_base_delay_then_reconnects() {
    let mut s = Session::new(policy(3, 60, -1));
    assert_eq!(s.state(), SessionState::Connecting);
    assert_eq!(s.on_event(SessionEvent::Connected), SessionState::Streaming);
    assert_eq!(
        s.on_event(SessionEvent::ConnectionLost),
        SessionState::BackingOff { attempt: 1, delay: 3 }
    );
    assert_eq!(s.on_event(SessionEvent::BackoffElapsed), SessionState::Connecting);
    assert_eq!(s.on_event(SessionEvent::Connected), SessionState::Streaming);
    assert_eq!(
        s.on_event(SessionEvent::ConnectionLost),
        SessionState::BackingOff { attempt: 2, delay: 6 }
    );
}

#[test]
fn terminal_states_end_the_session() {
    let mut s = Session::new(policy(1, 60, 0));
    assert_eq!(s.on_event(SessionEvent::AuthRefused), SessionState::AuthFailed);
    assert!(s.is_finished());
    assert_eq!(s.on_event(SessionEvent::Connected), SessionState::AuthFailed);
    let mut t = Session::new(policy(1, 60, 0));
    assert_eq!(t.on_event(SessionEvent::GaveUp), SessionState::RetriesExhausted);
    assert!(t.is_finished());
    assert_eq!(t.on_event(SessionEvent::BackoffElapsed), SessionState::RetriesExhausted);
}

#[test]
fn connect_steps_map_to_session_events() {
    assert_eq!(event_of_connect_step(ConnectStep::Established), Some(SessionEvent::Connected));
    assert_eq!(event_of_connect_step(ConnectStep::AuthFailed), Some(SessionEvent::AuthRefused));
    assert_eq!(event_of_connect_step(ConnectStep::RetriesExhausted), Some(SessionEvent::GaveUp));
    assert_eq!(event_of_connect_step(ConnectStep::RetryAfter(4)), None);
}
