use nautilus_network::config::{SecurityMode, SocketConfig};

#[test]
fn omitted_parameters_take_defaults() {
    let cfg = SocketConfig::new(
        "venue.example:443".to_string(),
        true,
        b"\r\n".to_vec(),
        None,
        None,
        None,
        None,
        None,
        None,
        None,
    );
    assert_eq!(cfg.mode, SecurityMode::Tls);
    assert_eq!(cfg.reconnect_timeout_ms, 10_000);
    assert_eq!(cfg.reconnect_delay_initial_ms, 2_000);
    assert_eq!(cfg.reconnect_delay_max_ms, 30_000);
    assert_eq!(cfg.reconnect_backoff_factor_milli, 1_500);
    assert_eq!(cfg.reconnect_jitter_ms, 100);
    assert!(cfg.certs_dir.is_none());
    assert!(cfg.heartbeat.is_none());
}

#[test]
fn given_parameters_are_kept() {
    let cfg = SocketConfig::new(
        "venue.example:80".to_string(),
        false,
        Vec::new(),
        Some((5, b"hb".to_vec())),
        Some(1_000),
        Some(250),
        Some(8_000),
        Some(2_000),
        Some(50),
        Some("/etc/certs".to_string()),
    );
    assert_eq!(cfg.url, "venue.example:80");
    assert_eq!(cfg.mode, SecurityMode::Plain);
    assert_eq!(cfg.heartbeat, Some((5, b"hb".to_vec())));
    assert_eq!(cfg.reconnect_timeout_ms, 1_000);
    assert_eq!(cfg.reconnect_delay_initial_ms, 250);
    assert_eq!(cfg.reconnect_delay_max_ms, 8_000);
    assert_eq!(cfg.reconnect_backoff_factor_milli, 2_000);
    assert_eq!(cfg.reconnect_jitter_ms, 50);
    assert_eq!(cfg.certs_dir, Some("/etc/certs".to_string()));
}
