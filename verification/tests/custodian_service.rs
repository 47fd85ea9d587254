//! The custodian's tickets on the wire, and the requests it answers.

use infovulcan::custodian::db_client::{
    create_ticket_write, get_reply, get_ticket_outcome, put_reply, soft_delete_lookup,
    update_ticket_write,
};
use infovulcan::custodian::locks::{CustodianStateMachine, LockCommand, LockInfo, LockResponse};
use infovulcan::custodian::server::{
    acquire_lock, acquire_lock_reply, begin_update, check_lock, cluster_status, create_ticket,
    create_ticket_reply, created_ticket_write, fetched_record, get_ticket_reply, health,
    lock_ttl_secs, queried_records, query_call, query_reply, release_lock, release_lock_reply,
    require_client, update_ticket, update_ticket_reply, updated_ticket_write, BodyError,
    CreateTicketCall, LockCall, SealError, UpdateTicketCall,
};
use infovulcan::custodian::ticket::{
    domain_to_proto, map_history_entry, map_network_device, map_next_action, proto_to_next_action,
    ticket_index, AutoCloseSchedule, DeviceType, HistoryEntry, NetworkDevice, NextAction,
    NextActionKind, NextActionMessage, Resolution, Symptom, Ticket, TicketPriority, TicketStatus,
};
use infovulcan::db::server::{GetReply, TicketRecord};
use infovulcan::db::storage::Storage;
use infovulcan::raft::types::{LeaderId, LogId, NodeMetrics, ServerState};
use infovulcan::status::{Code, Status};
use infovulcan::time::{dt_to_proto, proto_to_dt, Moment, Timestamp};

fn now() -> Moment {
    Moment {
        secs: 1_700_000_100,
        nanos: 5,
    }
}

fn new_ticket(id: u64) -> Ticket {
    Ticket::new(
        id,
        "Test".to_string(),
        "Project".to_string(),
        uuid::Uuid::new_v4().as_u128(),
        Symptom { code: 1 },
        uuid::Uuid::new_v4().as_u128(),
        now(),
    )
}

fn new_uuid() -> String {
    uuid::Uuid::new_v4().to_string()
}

fn create_call(title: &str, account: &str, created_by: &str) -> CreateTicketCall {
    CreateTicketCall {
        title: title.to_string(),
        project: "proj".to_string(),
        account_uuid: account.to_string(),
        symptom: 0,
        priority: 0,
        created_by_uuid: created_by.to_string(),
        customer_ticket_number: None,
        isp_ticket_number: None,
        other_ticket_number: None,
        ebond: None,
        tracking_url: None,
    }
}

fn update_call(ticket_id: u64, title: Option<&str>, by: Option<String>) -> UpdateTicketCall {
    UpdateTicketCall {
        ticket_id,
        title: title.map(|t| t.to_string()),
        project: None,
        symptom: None,
        priority: None,
        status: None,
        next_action: None,
        resolution: None,
        assigned_to_uuid: None,
        updated_by_uuid: by,
    }
}

// ---- Creating tickets, and their locks ----

#[test]
fn test_create_ticket_and_lock_flow() {
    let ticket = create_ticket(create_call("Test", &new_uuid(), &new_uuid()), now()).unwrap();
    let ticket = create_ticket_reply(ticket, None, 1_700_000_100_000).expect("create ticket");
    assert_eq!(ticket.title, "Test");
    assert_eq!(ticket.priority, 0);
    assert_eq!(ticket.ticket_id, 1_700_000_100_000);

    let mut sm = CustodianStateMachine::new(Storage::new_temp().unwrap());
    let call = LockCall {
        ticket_id: ticket.ticket_id,
        user_uuid: new_uuid(),
    };
    let command = acquire_lock(&call, 0, 900).expect("acquire");
    let response = sm.apply(&command).unwrap();
    let reply = acquire_lock_reply(&sm.storage, call.ticket_id, Ok(response)).expect("acquire");
    assert!(reply.success);

    let command = release_lock(&call).expect("release");
    let response = sm.apply(&command).unwrap();
    let reply = release_lock_reply(Ok(response)).expect("release");
    assert!(reply.success);
    assert_eq!(reply.error, "");
}

#[test]
fn acquire_lock_conflict_reports_current_holder() {
    let mut sm = CustodianStateMachine::new(Storage::new_temp().unwrap());
    let holder = new_uuid();
    let ticket_id = 42;
    let mut ask = |user_uuid: String| {
        let command = acquire_lock(
            &LockCall {
                ticket_id,
                user_uuid,
            },
            100,
            900,
        )
        .unwrap();
        let response = sm.apply(&command).unwrap();
        acquire_lock_reply(&sm.storage, ticket_id, Ok(response)).unwrap()
    };
    assert!(ask(holder.clone()).success);

    // A different user's acquisition is rejected and learns who holds the lock.
    let second = ask(new_uuid());
    assert!(!second.success);
    assert_eq!(second.error, format!("ticket 42 is locked by {holder}"));
    assert_eq!(second.current_holder.as_deref(), Some(holder.as_str()));
}

#[test]
fn a_failed_write_is_an_internal_error() {
    let storage = Storage::new_temp().unwrap();
    let err = acquire_lock_reply(&storage, 1, Err("no leader".to_string())).unwrap_err();
    assert_eq!(err.code, Code::Internal);
    assert_eq!(err.message, "Raft write failed: no leader");
    let err = release_lock_reply(Err("no leader".to_string())).unwrap_err();
    assert_eq!(err.message, "Raft write failed: no leader");
    let response = LockResponse {
        success: false,
        error: None,
        value: None,
    };
    let reply = acquire_lock_reply(&storage, 1, Ok(response)).unwrap();
    assert_eq!(reply.current_holder, None);
}

#[test]
fn acquire_and_release_lock_reject_invalid_user_uuid() {
    let call = LockCall {
        ticket_id: 1,
        user_uuid: "not-a-uuid".to_string(),
    };
    let acquire_err = acquire_lock(&call, 0, 0).expect_err("invalid user uuid");
    assert_eq!(acquire_err.code, Code::InvalidArgument);
    let release_err = release_lock(&call).expect_err("invalid user uuid");
    assert_eq!(release_err.code, Code::InvalidArgument);
}

#[test]
fn acquire_lock_rejects_invalid_user_uuid() {
    let call = LockCall {
        ticket_id: 1,
        user_uuid: "not-a-uuid".to_string(),
    };
    let err = acquire_lock(&call, 0, 0).expect_err("invalid UUID should fail");
    assert_eq!(err.code, Code::InvalidArgument);
}

#[test]
fn release_lock_rejects_invalid_user_uuid() {
    let call = LockCall {
        ticket_id: 1,
        user_uuid: "not-a-uuid".to_string(),
    };
    let err = release_lock(&call).expect_err("invalid UUID should fail");
    assert_eq!(err.code, Code::InvalidArgument);
}

#[test]
fn ids_are_read_in_every_common_form() {
    let id = 0x1234_5678_9abc_def0_1122_3344_5566_7788_u128;
    for text in [
        "12345678-9abc-def0-1122-334455667788",
        "123456789ABCDEF01122334455667788",
        "{12345678-9abc-def0-1122-334455667788}",
        "urn:uuid:12345678-9abc-def0-1122-334455667788",
    ] {
        let command = release_lock(&LockCall {
            ticket_id: 1,
            user_uuid: text.to_string(),
        });
        assert!(matches!(
            command,
            Ok(LockCommand::ReleaseLock { user_id, .. }) if user_id == id
        ));
    }
}

#[test]
fn create_ticket_rejects_empty_title() {
    let err = create_ticket(create_call("", &new_uuid(), &new_uuid()), now())
        .expect_err("empty title should fail");
    assert_eq!(err.code, Code::InvalidArgument);
    assert_eq!(err.message, "title is required");
}

#[test]
fn create_ticket_rejects_invalid_account_uuid() {
    let err = create_ticket(create_call("Valid Title", "bad-uuid", &new_uuid()), now())
        .expect_err("invalid account UUID should fail");
    assert_eq!(err.code, Code::InvalidArgument);
}

#[test]
fn create_ticket_rejects_invalid_created_by_uuid() {
    let err = create_ticket(create_call("Valid Title", &new_uuid(), "bad-uuid"), now())
        .expect_err("invalid created_by UUID should fail");
    assert_eq!(err.code, Code::InvalidArgument);
}

#[test]
fn the_database_numbers_a_ticket() {
    let ticket = new_ticket(0);
    assert_eq!(
        create_ticket_reply(ticket.clone(), Some(Ok(9)), 1)
            .unwrap()
            .ticket_id,
        9
    );
    assert_eq!(
        create_ticket_reply(ticket.clone(), None, -1).unwrap().ticket_id,
        0
    );
    let err = create_ticket_reply(ticket, Some(Err("down".to_string())), 1).unwrap_err();
    assert_eq!(err.code, Code::Internal);
    assert_eq!(err.message, "db create_ticket error: down");
}

#[test]
fn locks_last_as_long_as_is_set() {
    assert_eq!(lock_ttl_secs(None), 900);
    assert_eq!(lock_ttl_secs(Some("60".to_string())), 60);
    assert_eq!(lock_ttl_secs(Some("x".to_string())), 900);
}

// ---- Reading tickets ----

#[test]
fn get_ticket_without_db_client_returns_unavailable() {
    let err = require_client(false).expect_err("no db client should fail");
    assert_eq!(err.code, Code::Unavailable);
    assert!(require_client(true).is_ok());
}

#[test]
fn with_db_client_constructor_sets_db_client() {
    let err = fetched_record(Err("transport".to_string())).expect_err("transport error expected");
    assert_ne!(err.code, Code::Unavailable);
    assert_eq!(err.message, "db get error: transport");
}

#[test]
fn a_ticket_is_shown_under_the_number_it_was_asked_by() {
    let shown = get_ticket_reply(7, Ok(new_ticket(0))).unwrap();
    assert_eq!(shown.ticket_id, 7);
    assert_eq!(shown.title, "Test");
    let missing = fetched_record(Ok(None)).unwrap_err();
    assert_eq!(missing.code, Code::NotFound);
    for error in [
        BodyError::Sealed("x".to_string()),
        BodyError::Decryption("x".to_string()),
        BodyError::Content("x".to_string()),
    ] {
        assert_eq!(get_ticket_reply(7, Err(error)).unwrap_err().code, Code::Internal);
    }
}

#[test]
fn a_query_shows_every_ticket_or_the_first_failure() {
    let call = query_call(Some(1), None, None, Some("p".to_string()), true, 3);
    assert_eq!(call.status, Some(1));
    assert_eq!(call.project.as_deref(), Some("p"));
    assert!(call.include_deleted);
    assert_eq!(call.limit, 3);
    let shown = query_reply(vec![(1, Ok(new_ticket(0))), (2, Ok(new_ticket(0)))]).unwrap();
    assert_eq!(shown.len(), 2);
    assert_eq!(shown[1].ticket_id, 2);
    let failed = query_reply(vec![
        (1, Ok(new_ticket(0))),
        (2, Err(BodyError::Content("bad".to_string()))),
    ]);
    assert_eq!(
        failed.unwrap_err().message,
        "deserialize ticket error: bad"
    );
    let err = queried_records(Err("down".to_string())).unwrap_err();
    assert_eq!(err.message, "db query_tickets error: down");
    assert!(queried_records(Ok(vec![])).unwrap().is_empty());
}

// ---- Keeping tickets ----

#[test]
fn a_sealed_ticket_is_kept_with_its_index() {
    let ticket = new_ticket(3);
    let write = created_ticket_write(&ticket, Ok(vec![1])).unwrap();
    assert_eq!(write.ticket_id, 0);
    assert_eq!(write.encrypted_body, vec![1]);
    assert_eq!(write.index.unwrap().project, "Project");
    assert_eq!(updated_ticket_write(3, &ticket, Ok(vec![2])).unwrap().ticket_id, 3);
    let text = |e: SealError| {
        let err = updated_ticket_write(3, &ticket, Err(e)).unwrap_err();
        assert_eq!(err.code, Code::Internal);
        err.message
    };
    assert_eq!(text(SealError::Content("x".to_string())), "serialize error: x");
    assert_eq!(text(SealError::Encryption("x".to_string())), "encryption error: x");
    assert_eq!(
        text(SealError::Envelope("x".to_string())),
        "serialize encrypted data error: x"
    );
}

// ---- Updating tickets ----

#[test]
fn update_ticket_requires_updated_by_uuid() {
    let storage = Storage::new_temp().unwrap();
    let err = begin_update(&update_call(1, None, None), &storage, 0, false)
        .expect_err("missing updater should fail");
    assert_eq!(err.code, Code::InvalidArgument);
}

#[test]
fn update_ticket_rejects_invalid_updated_by_uuid_format() {
    let storage = Storage::new_temp().unwrap();
    let call = update_call(1, None, Some("not-a-uuid".to_string()));
    let err = begin_update(&call, &storage, 0, false).expect_err("invalid UUID should fail");
    assert_eq!(err.code, Code::InvalidArgument);
}

#[test]
fn update_ticket_requires_existing_lock() {
    let storage = Storage::new_temp().unwrap();
    let by = "00000000-0000-0000-0000-000000000001".to_string();
    let call = update_call(99, Some("new title"), Some(by));
    let err = begin_update(&call, &storage, 0, false).expect_err("must fail without lock");
    assert_eq!(err.code, Code::PermissionDenied);
    assert_eq!(err.message, "ticket is not locked");
}

#[test]
fn update_ticket_returns_permission_denied_for_wrong_lock_holder() {
    let mut storage = Storage::new_temp().unwrap();
    storage
        .acquire_lock_at(42, uuid::Uuid::new_v4().as_u128(), 100, 900)
        .unwrap();
    let call = update_call(42, Some("hacked"), Some(new_uuid()));
    let err = begin_update(&call, &storage, 200, true).expect_err("wrong lock holder");
    assert_eq!(err.code, Code::PermissionDenied);
    assert_eq!(err.message, "user does not hold lock");
}

#[test]
fn update_ticket_without_db_client_returns_unavailable() {
    let mut storage = Storage::new_temp().unwrap();
    let user = uuid::Uuid::new_v4();
    storage.acquire_lock(1, user.as_u128(), 100).unwrap();
    let call = update_call(1, Some("new title"), Some(user.to_string()));
    let err = begin_update(&call, &storage, 200, false).expect_err("no db_client");
    assert_eq!(err.code, Code::Unavailable);
    assert_eq!(begin_update(&call, &storage, 200, true).unwrap(), user.as_u128());
}

#[test]
fn an_expired_lock_is_no_leave_to_update() {
    let lock = LockInfo {
        ticket_id: 1,
        user_id: 7,
        acquired_at_unix: 0,
        expires_at_unix: 10,
    };
    assert!(check_lock(Some(lock), 7, 9).is_ok());
    let err = check_lock(Some(lock), 7, 10).unwrap_err();
    assert_eq!(err.message, "ticket lock has expired");
    assert!(check_lock(Some(lock), 8, 9).is_err());
}

#[test]
fn an_update_changes_what_it_names() {
    let ticket = new_ticket(3);
    let later = Moment { secs: 9, nanos: 0 };
    let assignee = uuid::Uuid::new_v4();
    let mut call = update_call(3, Some("Renamed"), None);
    call.symptom = Some(2);
    call.priority = Some(1);
    call.status = Some(1);
    call.resolution = Some(4);
    call.assigned_to_uuid = Some(assignee.to_string());
    call.next_action = Some(NextActionMessage {
        kind: Some(NextActionKind::AutoClose(2)),
    });
    let after = update_ticket(ticket.clone(), call, 77, later).unwrap();
    assert_eq!(after.title, "Renamed");
    assert_eq!(after.project, ticket.project);
    assert_eq!(after.symptom, Symptom { code: 2 });
    assert_eq!(after.priority, TicketPriority::HardDown);
    assert_eq!(after.status, TicketStatus::AwaitingCustomer);
    assert_eq!(after.resolution, Some(Resolution { code: 4 }));
    assert_eq!(after.assigned_to, Some(assignee.as_u128()));
    assert_eq!(
        after.next_action,
        NextAction::AutoClose(AutoCloseSchedule::Hours24)
    );
    assert_eq!(after.updated_by, 77);
    assert_eq!(after.updated_at, later);
    assert_eq!(after.created_at, ticket.created_at);
    let shown = update_ticket_reply(&after, Ok(())).unwrap();
    assert_eq!(shown.title, "Renamed");
    let err = update_ticket_reply(&after, Err("down".to_string())).unwrap_err();
    assert_eq!(err.message, "db update_ticket error: down");
}

#[test]
fn an_update_keeps_to_the_policy() {
    let mut ticket = new_ticket(3);
    ticket.status = TicketStatus::Closed;
    let mut call = update_call(3, None, None);
    call.status = Some(0);
    let err = update_ticket(ticket.clone(), call, 77, now()).unwrap_err();
    assert_eq!(err.code, Code::FailedPrecondition);
    assert_eq!(err.message, "invalid status transition: Closed -> Open");
    let mut call = update_call(3, None, None);
    call.assigned_to_uuid = Some("bad".to_string());
    let err = update_ticket(ticket, call, 77, now()).unwrap_err();
    assert_eq!(err.code, Code::InvalidArgument);
    assert_eq!(err.message, "Invalid assigned_to UUID");
}

// ---- The cluster ----

fn metrics(state: ServerState) -> NodeMetrics {
    NodeMetrics {
        id: 1,
        state,
        current_term: 3,
        current_leader: Some(1),
        last_applied: Some(LogId {
            leader_id: LeaderId {
                term: 3,
                node_id: 1,
            },
            index: 8,
        }),
        node_ids: vec![1, 2, 3],
    }
}

#[test]
fn health_and_cluster_status_are_available() {
    let answer = health(&metrics(ServerState::Leader));
    assert!(answer.healthy);
    assert!(!answer.status.is_empty());
    let cluster = cluster_status(&metrics(ServerState::Leader));
    assert!(cluster.term >= 1);
    assert_eq!(cluster.leader_id, "1");
    assert_eq!(cluster.commit_index, 8);
}

#[test]
fn health_with_shutdown_state_returns_unhealthy() {
    assert!(!health(&metrics(ServerState::Shutdown)).healthy);
}

#[test]
fn cluster_status_includes_follower_node_ids() {
    let cluster = cluster_status(&metrics(ServerState::Leader));
    assert_eq!(cluster.follower_ids, vec!["2".to_string(), "3".to_string()]);
}

// ---- Next actions ----

fn next_action_roundtrip(na: &NextAction) -> NextAction {
    match map_next_action(na) {
        Some(proto) => proto_to_next_action(&proto),
        None => proto_to_next_action(&NextActionMessage { kind: None }),
    }
}

#[test]
fn next_action_none_roundtrips() {
    assert_eq!(
        next_action_roundtrip(&NextAction::NoAction),
        NextAction::NoAction
    );
    // None maps to an absent proto message.
    assert!(map_next_action(&NextAction::NoAction).is_none());
}

#[test]
fn next_action_follow_up_roundtrips_with_timestamp() {
    let ts = Moment {
        secs: 1_700_000_000,
        nanos: 0,
    };
    assert_eq!(
        next_action_roundtrip(&NextAction::FollowUp(ts)),
        NextAction::FollowUp(ts)
    );
}

#[test]
fn next_action_appointment_roundtrips_with_timestamp() {
    let ts = Moment {
        secs: 1_700_000_500,
        nanos: 0,
    };
    assert_eq!(
        next_action_roundtrip(&NextAction::Appointment(ts)),
        NextAction::Appointment(ts)
    );
}

#[test]
fn next_action_auto_close_roundtrips_each_schedule() {
    for schedule in [
        AutoCloseSchedule::EndOfDay,
        AutoCloseSchedule::Hours24,
        AutoCloseSchedule::Hours48,
        AutoCloseSchedule::Hours72,
    ] {
        assert_eq!(
            next_action_roundtrip(&NextAction::AutoClose(schedule)),
            NextAction::AutoClose(schedule),
            "auto-close schedule {schedule:?} should round-trip"
        );
    }
}

#[test]
fn times_outside_the_calendar_become_the_start_of_1970() {
    let start = Moment { secs: 0, nanos: 0 };
    let last = proto_to_dt(&Timestamp {
        seconds: 8_210_266_876_799,
        nanos: 999_999_999,
    });
    assert_eq!(
        last,
        Moment {
            secs: 8_210_266_876_799,
            nanos: 999_999_999
        }
    );
    let first = proto_to_dt(&Timestamp {
        seconds: -8_334_601_228_800,
        nanos: 0,
    });
    assert_eq!(first.secs, -8_334_601_228_800);
    for (seconds, nanos) in [
        (8_210_266_876_800, 0),
        (-8_334_601_228_801, 0),
        (i64::MIN, 0),
        (i64::MAX, 0),
        (0, 1_000_000_000),
    ] {
        assert_eq!(proto_to_dt(&Timestamp { seconds, nanos }), start);
    }
    assert_eq!(
        dt_to_proto(Moment { secs: -5, nanos: 7 }),
        Timestamp {
            seconds: -5,
            nanos: 7
        }
    );
}

// ---- History ----

fn change(field: &str, old_value: Option<&str>, new_value: Option<&str>) -> HistoryEntry {
    HistoryEntry {
        timestamp: now(),
        user_id: uuid::Uuid::nil().as_u128(),
        field_changed: field.to_string(),
        old_value: old_value.map(|v| v.to_string()),
        new_value: new_value.map(|v| v.to_string()),
    }
}

#[test]
fn map_history_entry_formats_change_with_old_and_new_values() {
    let proto = map_history_entry(&change("status", Some("Open"), Some("Closed")));
    assert_eq!(proto.action, "status");
    assert!(proto.details.contains("Open"));
    assert!(proto.details.contains("Closed"));
    assert_eq!(proto.user_uuid, uuid::Uuid::nil().to_string());
    assert!(proto.timestamp.is_some());
}

#[test]
fn map_history_entry_handles_removal() {
    let proto = map_history_entry(&change("assigned_to", Some("Alice"), None));
    assert!(proto.details.contains("removed"));
}

#[test]
fn map_history_entry_handles_new_value_only() {
    let proto = map_history_entry(&change("tracking_url", None, Some("https://example.com")));
    assert!(proto.details.contains("example.com"));
}

#[test]
fn map_history_entry_handles_no_values() {
    let proto = map_history_entry(&change("ticket_created", None, None));
    assert_eq!(proto.details, "ticket_created");
}

// ---- Network devices ----

#[test]
fn map_network_device_dsl_modem() {
    let device = NetworkDevice::DslModem {
        make: "Cisco".to_string(),
        model: "DPC3825".to_string(),
        mac_address: None,
        serial_number: Some("SN123".to_string()),
    };
    let proto = map_network_device(&device);
    assert!(matches!(
        proto.device_type,
        Some(DeviceType::DslModem(ref d)) if d.make == "Cisco"
    ));
}

#[test]
fn map_network_device_coax_modem_with_mac() {
    let device = NetworkDevice::CoaxModem {
        make: "Arris".to_string(),
        model: "SB6141".to_string(),
        mac_address: Some("AA:BB:CC:DD:EE:FF".to_string()),
        serial_number: None,
    };
    let proto = map_network_device(&device);
    assert!(matches!(
        proto.device_type,
        Some(DeviceType::CoaxModem(ref d)) if d.mac_address.is_some()
    ));
}

#[test]
fn map_network_device_ont() {
    let device = NetworkDevice::Ont {
        make: "Calix".to_string(),
        model: "GigaPoint".to_string(),
        mac_address: None,
        serial_number: None,
    };
    let proto = map_network_device(&device);
    assert!(matches!(proto.device_type, Some(DeviceType::Ont(_))));
}

#[test]
fn map_network_device_fixed_wireless_antenna() {
    let device = NetworkDevice::FixedWirelessAntenna {
        make: "Cambium".to_string(),
        model: "PMP450".to_string(),
        mac_address: None,
        serial_number: None,
    };
    let proto = map_network_device(&device);
    assert!(matches!(
        proto.device_type,
        Some(DeviceType::FixedWirelessAntenna(_))
    ));
}

#[test]
fn map_network_device_vpn_gw() {
    let device = NetworkDevice::VpnGw {
        make: "Cisco".to_string(),
        model: "ASA5505".to_string(),
        mac_address: None,
        serial_number: None,
    };
    let proto = map_network_device(&device);
    assert!(matches!(proto.device_type, Some(DeviceType::VpnGw(_))));
}

#[test]
fn map_network_device_switch() {
    let device = NetworkDevice::Switch {
        make: "Cisco".to_string(),
        model: "SG300".to_string(),
        mac_address: None,
        serial_number: None,
    };
    let proto = map_network_device(&device);
    assert!(matches!(proto.device_type, Some(DeviceType::Switch(_))));
}

#[test]
fn map_network_device_router() {
    let device = NetworkDevice::Router {
        make: "Netgear".to_string(),
        model: "R7000".to_string(),
        mac_address: None,
        serial_number: None,
    };
    let proto = map_network_device(&device);
    assert!(matches!(proto.device_type, Some(DeviceType::Router(_))));
}

#[test]
fn map_network_device_firewall() {
    let device = NetworkDevice::Firewall {
        make: "Palo Alto".to_string(),
        model: "PA-220".to_string(),
        mac_address: None,
        serial_number: None,
    };
    let proto = map_network_device(&device);
    assert!(matches!(proto.device_type, Some(DeviceType::Firewall(_))));
}

// ---- Tickets on the wire ----

#[test]
fn test_domain_to_proto_priority() {
    let mut ticket = new_ticket(1);

    // Test Unknown (default)
    let proto = domain_to_proto(&ticket);
    assert_eq!(proto.priority, 0); // Unknown = 0

    // Test Specific Priority
    ticket.priority = TicketPriority::HardDown;
    let proto = domain_to_proto(&ticket);
    assert_eq!(proto.priority, 1); // HardDown = 1
}

#[test]
fn domain_to_proto_preserves_next_action_and_history() {
    let mut ticket = new_ticket(1);
    let follow_up_at = Moment {
        secs: 1_700_000_000,
        nanos: 0,
    };
    ticket.next_action = NextAction::FollowUp(follow_up_at);
    ticket.history.push(change("status", Some("Open"), Some("Closed")));
    let proto = domain_to_proto(&ticket);
    assert_eq!(
        proto_to_next_action(proto.next_action.as_ref().expect("next_action present")),
        NextAction::FollowUp(follow_up_at)
    );
    assert_eq!(proto.history.len(), 1);
    assert_eq!(proto.history[0].action, "status");
}

#[test]
fn domain_to_proto_preserves_network_devices() {
    let mut ticket = new_ticket(2);
    ticket.network_devices.push(NetworkDevice::Router {
        make: "Netgear".to_string(),
        model: "R7000".to_string(),
        mac_address: None,
        serial_number: None,
    });
    let proto = domain_to_proto(&ticket);
    assert_eq!(proto.network_devices.len(), 1);
}

#[test]
fn a_ticket_is_indexed_by_its_plain_fields() {
    let mut ticket = new_ticket(2);
    ticket.status = TicketStatus::Closed;
    ticket.assigned_to = Some(1);
    let index = ticket_index(&ticket);
    assert_eq!(index.status, 255);
    assert_eq!(
        index.account_uuid,
        uuid::Uuid::from_u128(ticket.account_uuid).to_string()
    );
    assert_eq!(
        index.assigned_to_uuid.as_deref(),
        Some("00000000-0000-0000-0000-000000000001")
    );
    assert_eq!(index.project, "Project");
    assert_eq!(index.created_at_unix, 1_700_000_100);
    for number in 0..=255u8 {
        let status = TicketStatus::from_u8(number);
        assert_eq!(TicketStatus::from_u8(status.number() as u8), status);
        let priority = TicketPriority::from_u8(number);
        assert_eq!(TicketPriority::from_u8(priority.number()), priority);
    }
}

// ---- The database ----

#[test]
fn put_returns_ok_when_server_reports_success() {
    assert!(put_reply(true, String::new()).is_ok());
}

#[test]
fn put_returns_error_when_server_reports_failure() {
    assert_eq!(
        put_reply(false, "mock put failure".to_string()),
        Err("mock put failure".to_string())
    );
}

#[test]
fn get_returns_some_when_key_found() {
    let reply = GetReply {
        found: true,
        value: b"value".to_vec(),
    };
    assert_eq!(get_reply(reply), Some(b"value".to_vec()));
}

#[test]
fn get_returns_none_when_key_not_found() {
    let reply = GetReply {
        found: false,
        value: vec![],
    };
    assert_eq!(get_reply(reply), None);
}

#[test]
fn create_ticket_returns_assigned_id_and_get_roundtrips() {
    let index = ticket_index(&new_ticket(5));
    let write = create_ticket_write(b"body".to_vec(), index.clone());
    assert_eq!(write.ticket_id, 0);
    assert_eq!(write.encrypted_body, b"body");
    assert_eq!(update_ticket_write(5, vec![1], index).ticket_id, 5);
    let record = TicketRecord {
        ticket_id: 5,
        encrypted_body: b"body".to_vec(),
        deleted: false,
        deleted_at_unix: 0,
    };
    let found = get_ticket_outcome(Ok(record)).unwrap().unwrap();
    assert_eq!(found.encrypted_body, b"body");
    assert!(!soft_delete_lookup(5).include_deleted);
}

#[test]
fn get_ticket_returns_none_for_missing() {
    let missing = get_ticket_outcome(Err(Status::new(Code::NotFound, "ticket not found")));
    assert!(matches!(missing, Ok(None)));
    let failed = get_ticket_outcome(Err(Status::new(Code::Unavailable, "down")));
    assert_eq!(failed.unwrap_err().code, Code::Unavailable);
}

#[test]
fn a_ticket_is_valid_when_its_times_are() {
    let at = |secs, nanos| Moment { secs, nanos };
    assert!(at(0, 999_999_999).is_valid());
    // Room for a leap second there is at the end of a minute only.
    assert!(at(59, 1_999_999_999).is_valid());
    assert!(at(-1, 1_000_000_000).is_valid());
    assert!(!at(58, 1_000_000_000).is_valid());
    assert!(!at(59, 2_000_000_000).is_valid());
    assert!(!at(i64::MAX, 0).is_valid());
    assert!(!at(i64::MIN, 0).is_valid());

    assert!(new_ticket(1).is_valid());
    let mut created = new_ticket(1);
    created.created_at = at(i64::MAX, 0);
    assert!(!created.is_valid());
    let mut planned = new_ticket(1);
    planned.next_action = NextAction::FollowUp(at(0, u32::MAX));
    assert!(!planned.is_valid());
    let mut changed = new_ticket(1);
    changed.history.push(HistoryEntry {
        timestamp: at(i64::MIN, 0),
        user_id: 1,
        field_changed: "title".to_string(),
        old_value: None,
        new_value: None,
    });
    assert!(!changed.is_valid());
}
