//! Service discovery and the gateway's backends.

use infovulcan::discovery::{
    apply_changes, moved, reload_once, BackendAddrs, InfoVulcanError, Moves, ServiceRegistry,
};

const SAMPLE: &str = r#"
    [services]
    auth = "http://auth:8082"
    admin = "http://admin:8083"
    custodian = "http://custodian-leader:8081"
"#;

fn registry(toml: &str) -> ServiceRegistry {
    ServiceRegistry::from_toml_str(toml).unwrap()
}

#[test]
fn parses_services_table() {
    let reg = ServiceRegistry::from_toml_str(SAMPLE).unwrap();
    assert_eq!(reg.len(), 3);
    assert!(!reg.is_empty());
    assert_eq!(reg.get("auth"), Some("http://auth:8082"));
    assert_eq!(reg.get("custodian"), Some("http://custodian-leader:8081"));
    assert_eq!(reg.get("missing"), None);
}

#[test]
fn empty_or_absent_table_is_ok() {
    let empty = ServiceRegistry::from_toml_str("").unwrap();
    assert!(empty.is_empty());
    assert_eq!(empty.len(), 0);
    let no_table = ServiceRegistry::from_toml_str("# just a comment\n").unwrap();
    assert!(no_table.is_empty());
}

#[test]
fn malformed_toml_is_an_error() {
    assert!(ServiceRegistry::from_toml_str("services = [").is_err());
}

#[test]
fn an_endpoint_that_is_no_text_is_an_error() {
    let read = ServiceRegistry::from_toml_str("[services]\nauth = 1\n");
    assert!(matches!(
        read,
        Err(InfoVulcanError::ValidationError(text)) if text.starts_with("invalid services.toml: ")
    ));
}

#[test]
fn an_endpoint_is_a_text() {
    assert!(ServiceRegistry::from_toml_str("[services]\nauth = 1979-05-27\n").is_err());
    assert!(ServiceRegistry::from_toml_str("services = \"auth\"\n").is_err());
    assert!(ServiceRegistry::from_toml_str("[services]\nauth = {}\n").is_err());
    assert_eq!(registry("day = 1979-05-27\n[services]\na = \"1\"\n").get("a"), Some("1"));
}

#[test]
fn a_large_number_elsewhere_is_passed_over() {
    let large = "limit = 18446744073709551616\n[services]\na = \"1\"\n";
    assert_eq!(registry(large).get("a"), Some("1"));
    // One that no integer holds cannot be read at all, before the table or after it.
    let digits = "9".repeat(60);
    for text in [
        format!("limit = {digits}\n[services]\na = \"1\"\n"),
        format!("[services]\na = \"1\"\n[other]\nlimit = {digits}\n"),
    ] {
        assert!(ServiceRegistry::from_toml_str(&text).is_err());
    }
}

#[test]
fn other_tables_are_passed_over() {
    let reg = registry("title = 1\n[services]\nb = \"2\"\na = \"1\"\n[other]\nx = 3\n");
    assert_eq!(reg.len(), 2);
    assert_eq!(reg.get("a"), Some("1"));
    assert_eq!(reg.get("b"), Some("2"));
    assert_eq!(reg.get("x"), None);
}

#[test]
fn load_missing_file_is_not_found() {
    let err = ServiceRegistry::of_file(
        "/nonexistent/services.toml",
        Err("No such file".to_string()),
    )
    .unwrap_err();
    assert!(matches!(
        err,
        InfoVulcanError::NotFound(text)
            if text == "services.toml at /nonexistent/services.toml: No such file"
    ));
}

#[test]
fn load_reads_a_real_file() {
    let reg = ServiceRegistry::of_file("services.toml", Ok(SAMPLE.to_string())).unwrap();
    assert_eq!(reg.get("admin"), Some("http://admin:8083"));
}

#[test]
fn resolve_with_prefers_registry_over_default() {
    let reg = ServiceRegistry::from_toml_str(SAMPLE).unwrap();
    let addr = reg.resolve_with(None, "auth", "http://fallback:1");
    assert_eq!(addr, "http://auth:8082");
}

#[test]
fn resolve_with_falls_back_to_default_when_absent() {
    let reg = ServiceRegistry::default();
    let addr = reg.resolve_with(None, "auth", "http://fallback:1");
    assert_eq!(addr, "http://fallback:1");
}

#[test]
fn resolve_with_env_override_wins() {
    let reg = ServiceRegistry::from_toml_str(SAMPLE).unwrap();
    let addr = reg.resolve_with(Some("http://override:9999"), "auth", "http://fallback:1");
    assert_eq!(addr, "http://override:9999");
}

#[test]
fn resolve_with_blank_override_is_ignored() {
    let reg = ServiceRegistry::from_toml_str(SAMPLE).unwrap();
    let addr = reg.resolve_with(Some("  "), "auth", "http://fallback:1");
    assert_eq!(addr, "http://auth:8082");
}

#[test]
fn registries_compare_for_change_detection() {
    let a = ServiceRegistry::from_toml_str(SAMPLE).unwrap();
    let b = ServiceRegistry::from_toml_str(SAMPLE).unwrap();
    assert_eq!(a, b);
    assert!(a.same_as(&b));
    let c = ServiceRegistry::from_toml_str("[services]\nauth = \"http://other:1\"\n").unwrap();
    assert_ne!(a, c);
    assert!(!a.same_as(&c));
}

#[test]
fn from_registry_uses_defaults_when_empty() {
    let addrs = BackendAddrs::from_registry(&ServiceRegistry::default(), None, None, None);
    assert_eq!(addrs.auth, BackendAddrs::DEFAULT_AUTH);
    assert_eq!(addrs.admin, BackendAddrs::DEFAULT_ADMIN);
    assert_eq!(addrs.custodian, BackendAddrs::DEFAULT_CUSTODIAN);
}

#[test]
fn from_registry_uses_file_entries() {
    let reg = registry(
        r#"
        [services]
        auth = "http://a:1"
        admin = "http://b:2"
        custodian = "http://c:3"
    "#,
    );
    let addrs = BackendAddrs::from_registry(&reg, None, None, None);
    assert_eq!(addrs.auth, "http://a:1");
    assert_eq!(addrs.admin, "http://b:2");
    assert_eq!(addrs.custodian, "http://c:3");
}

#[test]
fn env_override_beats_file() {
    let reg = registry("[services]\nauth = \"http://file:1\"\n");
    let addrs = BackendAddrs::from_registry(&reg, Some("http://env:9"), None, None);
    assert_eq!(addrs.auth, "http://env:9");
    // admin/custodian fall through to defaults
    assert_eq!(addrs.admin, BackendAddrs::DEFAULT_ADMIN);
}

fn addrs(auth: &str, admin: &str, custodian: &str) -> BackendAddrs {
    BackendAddrs {
        auth: auth.to_string(),
        admin: admin.to_string(),
        custodian: custodian.to_string(),
    }
}

/// Which backends can be reached at all at their addresses.
fn well_formed(next: &BackendAddrs) -> Moves {
    let ok = |addr: &str| tonic::transport::Endpoint::from_shared(addr.to_string()).is_ok();
    Moves {
        auth: ok(&next.auth),
        admin: ok(&next.admin),
        custodian: ok(&next.custodian),
    }
}

#[test]
fn apply_changes_skips_unchanged_services() {
    let current = addrs("http://a:1", "http://b:2", "http://c:3");
    let next = addrs("http://a:1", "http://b:2", "http://c:3");
    assert!(apply_changes(&current, &next, well_formed(&next)).is_empty());
}

#[test]
fn apply_changes_reconnects_changed_services() {
    let current = addrs("http://a:1", "http://b:2", "http://c:3");
    let next = addrs("http://127.0.0.1:9", "http://b:2", "http://c:3");
    assert!(moved(&current, &next).auth);
    let changed = apply_changes(&current, &next, well_formed(&next));
    assert_eq!(changed, vec!["auth"]);
}

#[test]
fn apply_changes_reconnects_all_three_when_all_differ() {
    let current = addrs("http://a:1", "http://b:2", "http://c:3");
    let next = addrs(
        "http://127.0.0.1:9",
        "http://127.0.0.1:10",
        "http://127.0.0.1:11",
    );
    let changed = apply_changes(&current, &next, well_formed(&next));
    assert_eq!(changed, vec!["auth", "admin", "custodian"]);
}

#[test]
fn apply_changes_keeps_old_channel_when_reconnect_fails() {
    let current = addrs("http://a:1", "http://b:2", "http://c:3");
    let next = addrs("::::bad uri::::", "::::bad uri::::", "::::bad uri::::");
    let changed = apply_changes(&current, &next, well_formed(&next));
    assert!(changed.is_empty());
}

const ALL: Moves = Moves {
    auth: true,
    admin: true,
    custodian: true,
};

#[test]
fn reload_once_keeps_the_endpoint_of_a_failed_reconnect() {
    let text = "[services]\nauth = \"::::bad uri::::\"\nadmin = \"http://new:2\"\n";
    let load = || ServiceRegistry::of_file("services.toml", Ok(text.to_string()));
    let current = || addrs("http://a:1", "http://b:2", BackendAddrs::DEFAULT_CUSTODIAN);
    let next = BackendAddrs::from_registry(&load().unwrap(), None, None, None);
    let after = reload_once(current(), load(), None, None, None, well_formed(&next));
    assert_eq!(after.auth, "http://a:1");
    assert_eq!(after.admin, "http://new:2");
    // At the next look the endpoint has still moved.
    assert!(moved(&after, &next).auth);
    assert!(!moved(&after, &next).admin);
}

#[test]
fn reload_once_applies_a_changed_file() {
    let current = addrs(
        "http://old:1",
        BackendAddrs::DEFAULT_ADMIN,
        BackendAddrs::DEFAULT_CUSTODIAN,
    );
    let loaded = ServiceRegistry::of_file(
        "services.toml",
        Ok("[services]\nauth = \"http://127.0.0.1:9\"\n".to_string()),
    );
    let next = reload_once(current, loaded, None, None, None, ALL);
    assert_eq!(next.auth, "http://127.0.0.1:9");
    assert_eq!(next.admin, BackendAddrs::DEFAULT_ADMIN);
}

#[test]
fn reload_once_keeps_current_on_missing_file() {
    let current = addrs("http://keep:1", "http://keep:2", "http://keep:3");
    let loaded =
        ServiceRegistry::of_file("/no/such/services.toml", Err("No such file".to_string()));
    let next = reload_once(current, loaded, None, None, None, ALL);
    assert_eq!(next, addrs("http://keep:1", "http://keep:2", "http://keep:3"));
}

#[test]
fn reload_once_is_noop_when_unchanged() {
    let defaults = || {
        addrs(
            BackendAddrs::DEFAULT_AUTH,
            BackendAddrs::DEFAULT_ADMIN,
            BackendAddrs::DEFAULT_CUSTODIAN,
        )
    };
    let loaded = ServiceRegistry::of_file("services.toml", Ok("[services]\n".to_string()));
    let next = reload_once(defaults(), loaded, None, None, None, ALL);
    assert_eq!(next, defaults());
}
