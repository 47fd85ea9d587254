//! The honeypot: its traps and the reports about them.

use infovulcan::honeypot::{
    capture, capture_at, download_backup, generate_fake_backup_list, generate_fake_wallet, generate_junk_data,
    get_wallet_balance, list_backups, listen_address, IntrusionEvent, CHUNK_BYTES,
    MAX_DOWNLOAD_MB,
};

#[test]
fn fake_wallet_is_plausible() {
    let wallet = generate_fake_wallet();
    assert!(wallet.starts_with("bc1"));
    assert!(wallet.len() > 20);
}

#[test]
fn fake_backup_list_has_archive_names() {
    let backups = generate_fake_backup_list();
    assert!(!backups.is_empty());
    assert!(backups
        .iter()
        .any(|b| b.contains(".tar.gz") || b.contains(".zip")));
}

#[test]
fn junk_data_has_requested_size() {
    assert_eq!(generate_junk_data(1).len(), 1024 * 1024);
}

#[test]
fn junk_data_is_one_byte_over_and_over() {
    assert!(generate_junk_data(0).is_empty());
    assert!(generate_junk_data(1).iter().all(|b| *b == 0x42));
}

#[test]
fn get_wallet_balance_returns_fake_data() {
    let resp = get_wallet_balance();
    assert!(resp.address.starts_with("bc1"));
    assert_eq!(resp.currency, "BTC");
}

#[test]
fn list_backups_streams_fake_archives() {
    let items = list_backups();
    assert_eq!(items.len(), 4);
    assert!(items[0].name.contains(".tar.gz"));
    assert_eq!(items[3].size_bytes, 1_073_741_824 + 3 * 104_857_600);
}

#[test]
fn download_backup_streams_clamped_junk() {
    let chunks = download_backup(1);
    let total: usize = chunks.iter().map(|c| c.len()).sum();
    assert_eq!(total, 1024 * 1024);
    // Tarpit cap: a huge request is clamped.
    let chunks = download_backup(10_000);
    let total: usize = chunks.iter().map(|c| c.len()).sum();
    assert_eq!(total, (MAX_DOWNLOAD_MB as usize) * 1024 * 1024);
    assert!(chunks.iter().all(|c| c.len() == CHUNK_BYTES));
    // So is one for nothing.
    let total: usize = download_backup(0).iter().map(|c| c.len()).sum();
    assert_eq!(total, 1024 * 1024);
}

#[test]
fn intrusion_event_creation_and_optional_fields() {
    let mut event = IntrusionEvent::new(
        "10.0.0.1".to_string(),
        "/api/backup".to_string(),
        "POST".to_string(),
    );
    assert_eq!(event.source_ip, "10.0.0.1");
    assert_eq!(event.endpoint_accessed, "/api/backup");
    assert!(event.user_agent.is_none());

    event.user_agent = Some("Mozilla/5.0".to_string());
    assert_eq!(event.user_agent.as_deref(), Some("Mozilla/5.0"));
}

#[test]
fn to_proto_carries_all_fields() {
    let mut event = IntrusionEvent::new(
        "1.2.3.4".to_string(),
        "/wallet".to_string(),
        "GET".to_string(),
    );
    event.user_agent = Some("curl".to_string());
    event.tls_fingerprint = Some("JA3".to_string());
    let proto = event.to_proto();
    assert_eq!(proto.source_ip, "1.2.3.4");
    assert_eq!(proto.endpoint_accessed, "/wallet");
    assert_eq!(proto.request_method, "GET");
    assert_eq!(proto.user_agent.as_deref(), Some("curl"));
    assert_eq!(proto.tls_fingerprint.as_deref(), Some("JA3"));
    assert!(proto.timestamp_unix > 0);
}

#[test]
fn times_are_kept_within_the_wire() {
    let at = |timestamp| {
        IntrusionEvent::at(timestamp, String::new(), String::new(), String::new())
            .to_proto()
            .timestamp_unix
    };
    assert_eq!(at(Some(5)), 5);
    assert_eq!(at(None), 0);
    assert_eq!(at(Some(u64::MAX)), i64::MAX);
}

#[test]
fn an_access_is_captured() {
    let event = capture_at(
        Some(1),
        Some("9.9.9.9".to_string()),
        Some("curl".to_string()),
        "/wallet",
        "GetWalletBalance",
    );
    assert_eq!(event.source_ip, "9.9.9.9");
    assert_eq!(event.user_agent.as_deref(), Some("curl"));
    assert_eq!(event.endpoint_accessed, "/wallet");
    assert_eq!(event.request_method, "GetWalletBalance");
    assert_eq!(event.timestamp, Some(1));
    let event = capture(None, None, "/wallet", "GetWalletBalance");
    assert_eq!(event.source_ip, "unknown");
    assert!(event.timestamp > Some(1_600_000_000));
    assert_eq!(listen_address(None), "0.0.0.0:8085");
}
