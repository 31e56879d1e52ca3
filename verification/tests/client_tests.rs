use nautilus_network::client::{RetryDecision, SendOutcome, SocketClient};
use nautilus_network::config::SocketConfig;
use nautilus_network::mode::ConnectionMode;
use nautilus_network::ratelimiter::TokenBucket;

fn config() -> SocketConfig {
    SocketConfig::new(
        "127.0.0.1:7878".to_string(),
        false,
        b"\r\n".to_vec(),
        None,
        Some(5_000),
        Some(2_000),
        Some(30_000),
        Some(1_500),
        Some(100),
        None,
    )
}

fn config_with_heartbeat() -> SocketConfig {
    SocketConfig::new(
        "127.0.0.1:7878".to_string(),
        false,
        b"\r\n".to_vec(),
        Some((10, b"ping".to_vec())),
        None,
        None,
        None,
        None,
        None,
        None,
    )
}

#[test]
fn send_appends_suffix_exactly_once() {
    let mut client = SocketClient::new(config(), None);
    let outcome = client.send(&b"order".to_vec(), 0).unwrap();
    match outcome {
        SendOutcome::Ready(frame) => assert_eq!(frame, b"order\r\n".to_vec()),
        SendOutcome::Defer(_) => panic!("an unthrottled client must admit the send"),
    }
}

#[test]
fn sends_keep_caller_order() {
    let mut client = SocketClient::new(config(), None);
    let first = client.send(&b"a".to_vec(), 0).unwrap();
    let second = client.send(&b"b".to_vec(), 1).unwrap();
    match (first, second) {
        (SendOutcome::Ready(f1), SendOutcome::Ready(f2)) => {
            assert_eq!(f1, b"a\r\n".to_vec());
            assert_eq!(f2, b"b\r\n".to_vec());
        }
        _ => panic!("both sends must be admitted"),
    }
}

#[test]
fn send_fails_while_not_active() {
    let mut client = SocketClient::new(config(), None);
    client.close();
    let err = client.send(&b"late".to_vec(), 0).unwrap_err();
    assert_eq!(err.mode, ConnectionMode::Disconnecting);
}

#[test]
fn rate_limited_send_defers_and_succeeds_later() {
    let bucket = TokenBucket::new(1, 1_000, 0);
    let mut client = SocketClient::new(config(), Some(bucket));
    match client.send(&b"x".to_vec(), 0).unwrap() {
        SendOutcome::Ready(frame) => assert_eq!(frame, b"x\r\n".to_vec()),
        SendOutcome::Defer(_) => panic!("the first unit of the burst must be admitted"),
    }
    let ready_at = match client.send(&b"y".to_vec(), 1).unwrap() {
        SendOutcome::Ready(_) => panic!("the burst capacity of one is already spent"),
        SendOutcome::Defer(at) => at,
    };
    match client.send(&b"y".to_vec(), ready_at).unwrap() {
        SendOutcome::Ready(frame) => assert_eq!(frame, b"y\r\n".to_vec()),
        SendOutcome::Defer(_) => panic!("the named instant must admit the retry"),
    }
}

#[test]
fn close_is_idempotent() {
    let mut client = SocketClient::new(config(), None);
    assert!(client.close());
    assert!(client.is_disconnecting());
    // the duplicate request is a no-op, not an error
    assert!(!client.close());
    assert!(client.is_disconnecting());
    client.finalize_close();
    assert!(client.is_closed());
    assert!(!client.close());
    assert!(client.is_closed());
}

#[test]
fn reconnect_while_reconnecting_is_rejected() {
    let mut client = SocketClient::new(config(), None);
    assert!(client.reconnect(1_000));
    assert!(client.is_reconnecting());
    let deadline_before = client.reconnect_deadline_ms;
    // the duplicate request alters nothing of the cycle in progress
    assert!(!client.reconnect(2_000));
    assert!(client.is_reconnecting());
    assert_eq!(client.reconnect_deadline_ms, deadline_before);
}

#[test]
fn reconnect_after_close_is_rejected() {
    let mut client = SocketClient::new(config(), None);
    client.close();
    assert!(!client.reconnect(0));
    client.finalize_close();
    assert!(!client.reconnect(0));
    assert!(client.is_closed());
}

#[test]
fn heartbeat_writes_once_per_tick_while_active() {
    let mut client = SocketClient::new(config_with_heartbeat(), None);
    // one tick, one ping
    assert_eq!(client.heartbeat_tick(), Some(b"ping".to_vec()));
    assert_eq!(client.heartbeat_tick(), Some(b"ping".to_vec()));
    // while not active, the beat is skipped without error
    client.on_io_failure(0);
    assert_eq!(client.heartbeat_tick(), None);
    client.on_attempt_success();
    assert_eq!(client.heartbeat_tick(), Some(b"ping".to_vec()));
}

#[test]
fn heartbeat_silent_when_not_configured() {
    let mut client = SocketClient::new(config(), None);
    assert_eq!(client.heartbeat_tick(), None);
}

#[test]
fn reconnect_cycle_retries_with_grown_delays() {
    let mut client = SocketClient::new(config(), None);
    assert!(client.on_io_failure(0));
    assert!(client.is_reconnecting());
    // each failed attempt inside the budget grows the delay by 1.5
    assert_eq!(client.on_attempt_failure(100, 0), RetryDecision::RetryAfterMs(3_000));
    assert_eq!(client.on_attempt_failure(3_100, 7), RetryDecision::RetryAfterMs(4_507));
    // a successful attempt restores service and resets the backoff
    client.on_attempt_success();
    assert!(client.is_active());
    assert_eq!(client.backoff.consecutive_failures, 0);
    assert_eq!(client.backoff.current_delay_ms, 2_000);
}

#[test]
fn short_timeout_closes_after_one_backoff_cycle() {
    // timeout of 2500 ms is shorter than two backoff cycles
    // (first retry delay alone is 3000 ms)
    let cfg = SocketConfig::new(
        "127.0.0.1:7878".to_string(),
        false,
        Vec::new(),
        None,
        Some(2_500),
        Some(2_000),
        Some(30_000),
        Some(1_500),
        Some(100),
        None,
    );
    let mut client = SocketClient::new(cfg, None);
    assert!(client.on_io_failure(0));
    let first = client.on_attempt_failure(50, 0);
    assert_eq!(first, RetryDecision::RetryAfterMs(3_000));
    // the retry fires after the budget has run out: the cycle gives up,
    // and the caller invokes the post-disconnection callback once
    let second = client.on_attempt_failure(3_050, 0);
    assert_eq!(second, RetryDecision::GiveUp);
    assert!(client.is_closed());
    // the terminal state admits no further lifecycle transition
    assert!(!client.reconnect(4_000));
    assert!(!client.close());
    assert!(client.is_closed());
}

#[test]
fn sends_resume_after_a_successful_reconnect() {
    let mut client = SocketClient::new(config(), None);
    client.on_io_failure(0);
    assert!(client.send(&b"lost".to_vec(), 0).is_err());
    client.on_attempt_failure(100, 0);
    client.on_attempt_success();
    match client.send(&b"back".to_vec(), 0).unwrap() {
        SendOutcome::Ready(frame) => assert_eq!(frame, b"back\r\n".to_vec()),
        SendOutcome::Defer(_) => panic!("an unthrottled client must admit the send"),
    }
}

#[test]
fn give_up_leaves_inspectable_state() {
    let mut client = SocketClient::new(config(), None);
    client.on_io_failure(0);
    client.on_attempt_failure(100, 0);
    let decision = client.on_attempt_failure(10_000, 0);
    assert_eq!(decision, RetryDecision::GiveUp);
    // every field is still well defined and inspectable
    assert!(client.is_closed());
    assert_eq!(client.reconnect_deadline_ms, None);
    assert_eq!(client.backoff.current_delay_ms, 3_000);
    assert_eq!(client.backoff.consecutive_failures, 1);
    let err = client.send(&b"x".to_vec(), 0).unwrap_err();
    assert_eq!(err.mode, ConnectionMode::Closed);
}

#[test]
fn io_failure_is_ignored_unless_active() {
    let mut client = SocketClient::new(config(), None);
    assert!(client.on_io_failure(0));
    // a second failure while already reconnecting changes nothing
    assert!(!client.on_io_failure(10));
    client.close();
    assert!(!client.on_io_failure(20));
}
