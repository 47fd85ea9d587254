//! The service that injects faults.

use infovulcan::chaos::{
    authorize, parse_scenario, ChaosRequest, ChaosScenario, ChaosServiceImpl,
};
use infovulcan::status::Code;

fn request(kind: &str, parameters: &[(&str, &str)]) -> ChaosRequest {
    ChaosRequest {
        scenario_type: kind.to_string(),
        parameters: parameters
            .iter()
            .map(|(k, v)| (k.to_string(), v.to_string()))
            .collect(),
    }
}

#[test]
fn test_inject_network_latency_scenario() {
    let mut service = ChaosServiceImpl::default();
    let req = request(
        "network_latency",
        &[
            ("delay_ms", "200"),
            ("duration_ms", "10000"),
            ("target_service", "db"),
        ],
    );
    let (ack, duration_ms) = service.inject_scenario(None, None, &req).unwrap();
    assert!(ack.scenario_id.starts_with("network_latency_"));
    assert_eq!(ack.status, "injected");
    assert!(ack.message.contains("network_latency"));
    assert_eq!(duration_ms, 10_000);
}

#[test]
fn authorize_open_when_unconfigured_else_requires_matching_token() {
    // No token configured -> open.
    assert!(authorize(None, None).is_ok());
    assert!(authorize(None, Some("anything")).is_ok());
    // Token configured -> must match.
    assert!(authorize(Some("secret"), Some("secret")).is_ok());
    assert_eq!(
        authorize(Some("secret"), Some("wrong")).unwrap_err().code,
        Code::PermissionDenied
    );
    assert_eq!(
        authorize(Some("secret"), None).unwrap_err().code,
        Code::PermissionDenied
    );
}

#[test]
fn injected_scenario_auto_expires_after_its_duration() {
    let mut service = ChaosServiceImpl::default();
    let req = request("network_latency", &[("duration_ms", "50")]);
    let (ack, duration_ms) = service.inject_scenario(None, None, &req).unwrap();
    assert_eq!(duration_ms, 50);

    // Active immediately after injection.
    assert_eq!(service.list_scenarios().scenario_ids.len(), 1);

    // After its lifetime it is taken out, once.
    assert!(service.expire(&ack.scenario_id));
    assert!(service.list_scenarios().scenario_ids.is_empty());
    assert!(!service.expire(&ack.scenario_id));
}

#[test]
fn test_inject_invalid_scenario() {
    let mut service = ChaosServiceImpl::default();
    let error = service
        .inject_scenario(None, None, &request("invalid_scenario", &[]))
        .unwrap_err();
    assert_eq!(error.code, Code::InvalidArgument);
}

#[test]
fn test_stop_scenario() {
    let mut service = ChaosServiceImpl::default();
    let req = request("service_crash", &[("crash_probability", "0.5")]);
    let (injected, _) = service.inject_scenario(None, None, &req).unwrap();

    let ack = service
        .stop_scenario(None, None, injected.scenario_id)
        .unwrap();
    assert_eq!(ack.status, "stopped");
    assert!(service.list_scenarios().scenario_ids.is_empty());
}

#[test]
fn test_stop_nonexistent_scenario() {
    let mut service = ChaosServiceImpl::default();
    let error = service
        .stop_scenario(None, None, "nonexistent".to_string())
        .unwrap_err();
    assert_eq!(error.code, Code::NotFound);
    assert_eq!(error.message, "Scenario nonexistent not found");
}

#[test]
fn test_list_scenarios() {
    let catalog = ChaosServiceImpl::new().list_scenarios();
    assert!(catalog.scenario_ids.is_empty()); // No active scenarios initially
    assert!(catalog
        .available_types
        .contains(&"network_latency".to_string()));
    assert!(catalog
        .available_types
        .contains(&"raft_leader_failure".to_string()));
}

#[test]
fn test_inject_disk_io_delay_scenario() {
    let mut service = ChaosServiceImpl::default();
    let req = request(
        "disk_io_delay",
        &[("delay_ms", "50"), ("target_service", "db")],
    );
    let (ack, _) = service.inject_scenario(None, None, &req).unwrap();
    assert!(ack.scenario_id.starts_with("disk_io_delay_"));
    assert_eq!(ack.status, "injected");
}

#[test]
fn test_inject_raft_leader_failure_scenario() {
    let mut service = ChaosServiceImpl::default();
    let req = request("raft_leader_failure", &[("node_id", "2")]);
    let (ack, _) = service.inject_scenario(None, None, &req).unwrap();
    assert!(ack.scenario_id.starts_with("raft_leader_failure_"));
    assert_eq!(ack.status, "injected");
}

#[test]
fn test_inject_network_partition_scenario() {
    let mut service = ChaosServiceImpl::default();
    let (ack, _) = service
        .inject_scenario(None, None, &request("network_partition", &[]))
        .unwrap();
    assert!(ack.scenario_id.starts_with("network_partition_"));
    assert_eq!(ack.status, "injected");
}

#[test]
fn test_inject_service_crash_with_defaults() {
    let mut service = ChaosServiceImpl::default();
    let (ack, _) = service
        .inject_scenario(None, None, &request("service_crash", &[]))
        .unwrap();
    assert!(ack.scenario_id.starts_with("service_crash_"));
    assert_eq!(ack.status, "injected");
}

#[test]
fn test_list_scenarios_after_injecting() {
    let mut service = ChaosServiceImpl::default();
    service
        .inject_scenario(None, None, &request("network_latency", &[]))
        .unwrap();
    let catalog = service.list_scenarios();
    assert_eq!(catalog.scenario_ids.len(), 1);
    assert_eq!(catalog.available_types.len(), 5);
}

#[test]
fn two_faults_have_two_ids() {
    let mut service = ChaosServiceImpl::default();
    let req = request("network_latency", &[]);
    let (first, _) = service.inject_scenario(None, None, &req).unwrap();
    let (second, _) = service.inject_scenario(None, None, &req).unwrap();
    assert_ne!(first.scenario_id, second.scenario_id);
    assert_eq!(service.list_scenarios().scenario_ids.len(), 2);
}

#[test]
fn faults_need_the_token_that_is_expected() {
    let mut service = ChaosServiceImpl::default();
    let req = request("network_latency", &[]);
    let err = service
        .inject_scenario(Some("secret"), None, &req)
        .unwrap_err();
    assert_eq!(err.code, Code::PermissionDenied);
    assert!(service.list_scenarios().scenario_ids.is_empty());
    let (ack, _) = service
        .inject_scenario(Some("secret"), Some("secret"), &req)
        .unwrap();
    assert!(service
        .stop_scenario(Some("secret"), Some("x"), ack.scenario_id)
        .is_err());
    assert_eq!(service.list_scenarios().scenario_ids.len(), 1);
}

#[test]
fn parameters_have_defaults() {
    let parsed = parse_scenario(&request("network_latency", &[("delay_ms", "x")])).unwrap();
    assert!(matches!(
        parsed,
        ChaosScenario::NetworkLatency { target_service, delay_ms: 100, duration_ms: 30_000 }
            if target_service == "all"
    ));
    let parsed = parse_scenario(&request("raft_leader_failure", &[("node_id", "2")])).unwrap();
    assert!(matches!(
        parsed,
        ChaosScenario::RaftLeaderFailure { node_id: 2, .. }
    ));
    let parsed = parse_scenario(&request("service_crash", &[("crash_probability", "0.5")])).unwrap();
    assert!(matches!(
        parsed,
        ChaosScenario::ServiceCrash { crash_probability: Some(text), .. } if text == "0.5"
    ));
}
