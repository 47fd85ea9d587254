//! The requests that the database answers.

use infovulcan::db::log::LogEntry;
use infovulcan::db::server::{
    batch_put_entry, batch_put_reply, cluster_status, create_ticket_entry, create_ticket_reply,
    create_user_entry, create_user_reply, delete_entry, exists_key, exists_reply, get, get_reply,
    get_ticket, get_user, health, list, list_reply, put_entry, query_reply, query_tickets,
    soft_delete_ticket_entry, soft_delete_user_entry, ticket_reply, update_ticket_entry,
    update_ticket_reply, update_user_entry, update_user_reply, user_reply, write_reply, KeyValue,
    TicketLookup, TicketRecord, TicketWrite, UserLookup, UserWrite, WireTicketIndex,
    WireTicketQuery, WireUserIndex,
};
use infovulcan::db::rows::{StoredTicket, StoredUser, TicketIndexFields, UserIndexFields};
use infovulcan::db::storage::{Storage, StorageError};
use infovulcan::raft::types::{NodeMetrics, ServerState};
use infovulcan::status::Code;

fn apply(storage: &mut Storage, entry: &LogEntry) -> Result<(), String> {
    match entry.apply(storage) {
        Ok(_) => Ok(()),
        Err(e) => Err(e.message()),
    }
}

#[test]
fn database_service_put_get_exists_delete_list_and_batch_put() {
    let mut storage = Storage::new_temp().unwrap();

    let entry = put_entry("tickets".to_string(), b"k1".to_vec(), b"v1".to_vec());
    let outcome = apply(&mut storage, &entry);
    assert!(write_reply(outcome).expect("put"));

    assert!(exists_key(&storage, "tickets", b"k1").expect("exists"));

    let get_resp = get(&storage, "tickets", b"k1").expect("get");
    assert!(get_resp.found);
    assert_eq!(get_resp.value, b"v1");

    let items = vec![
        KeyValue {
            key: b"k2".to_vec(),
            value: b"v2".to_vec(),
        },
        KeyValue {
            key: b"k3".to_vec(),
            value: b"v3".to_vec(),
        },
    ];
    let (entry, count) = batch_put_entry("tickets".to_string(), &items);
    let outcome = apply(&mut storage, &entry);
    assert_eq!(batch_put_reply(count, outcome).expect("batch_put"), 2);

    let items = list(&storage, "tickets", b"k", 10).expect("list");
    assert!(items.len() >= 3);
    assert_eq!(list(&storage, "tickets", b"k", 2).expect("list").len(), 2);
    assert_eq!(list(&storage, "tickets", b"k", 0).expect("list").len(), 3);

    let entry = delete_entry("tickets".to_string(), b"k1".to_vec());
    let outcome = apply(&mut storage, &entry);
    assert!(write_reply(outcome).expect("delete"));

    let get_deleted = get(&storage, "tickets", b"k1").expect("get deleted");
    assert!(!get_deleted.found);
    assert!(get_deleted.value.is_empty());
}

fn sample_proto_index(status: u32) -> WireTicketIndex {
    WireTicketIndex {
        status,
        account_uuid: "acct".to_string(),
        assigned_to_uuid: Some("agent".to_string()),
        project: "proj".to_string(),
        tracking_url: None,
        created_at_unix: 1,
        updated_at_unix: 1,
    }
}

fn write(body: &[u8], status: u32) -> TicketWrite {
    TicketWrite {
        ticket_id: 0,
        encrypted_body: body.to_vec(),
        index: Some(sample_proto_index(status)),
    }
}

fn create(storage: &mut Storage, req: TicketWrite) -> TicketRecord {
    let outcome = create_ticket_entry(&req)
        .apply(storage)
        .map_err(|e| e.message());
    create_ticket_reply(req, outcome).expect("create")
}

fn lookup(ticket_id: u64, include_deleted: bool) -> TicketLookup {
    TicketLookup {
        ticket_id,
        include_deleted,
    }
}

#[test]
fn create_then_get_ticket_roundtrip() {
    let mut storage = Storage::new_temp().unwrap();
    let created = create(&mut storage, write(b"cipher", 1));
    assert_eq!(created.ticket_id, 1);

    let got = get_ticket(&storage, &lookup(created.ticket_id, false)).expect("get");
    assert_eq!(got.encrypted_body, b"cipher");
    assert!(!got.deleted);
}

#[test]
fn query_streams_matching_tickets() {
    let mut storage = Storage::new_temp().unwrap();
    let open = create(&mut storage, write(b"a", 1));
    let _closed = create(&mut storage, write(b"b", 9));

    let results = query_tickets(
        &storage,
        WireTicketQuery {
            status: Some(1),
            assigned_to_uuid: None,
            account_uuid: None,
            project: None,
            include_deleted: false,
            limit: 0,
        },
    )
    .expect("query");
    assert_eq!(results.len(), 1);
    assert_eq!(results[0].ticket_id, open.ticket_id);
}

#[test]
fn soft_delete_hides_ticket_unless_include_deleted() {
    let mut storage = Storage::new_temp().unwrap();
    let created = create(&mut storage, write(b"x", 1));
    let entry = soft_delete_ticket_entry(&lookup(created.ticket_id, false), 77);
    let outcome = apply(&mut storage, &entry);
    write_reply(outcome).expect("soft delete");

    // Hidden from a normal read…
    let err = get_ticket(&storage, &lookup(created.ticket_id, false)).unwrap_err();
    assert_eq!(err.code, Code::NotFound);
    // …but the audit row is retained.
    let got = get_ticket(&storage, &lookup(created.ticket_id, true)).unwrap();
    assert!(got.deleted);
    assert_eq!(got.deleted_at_unix, 77);
}

#[test]
fn create_then_get_user_roundtrip_and_soft_delete() {
    let mut storage = Storage::new_temp().unwrap();
    let req = UserWrite {
        user_uuid: "u-1".to_string(),
        encrypted_body: b"ubody".to_vec(),
        index: Some(WireUserIndex {
            username: "alice".to_string(),
            email: "alice@example.com".to_string(),
            role: 2,
        }),
    };
    let entry = create_user_entry(&req).expect("entry");
    let outcome = apply(&mut storage, &entry);
    let created = create_user_reply(req, outcome).expect("create user");
    assert_eq!(created.user_uuid, "u-1");

    let ask = || UserLookup {
        user_uuid: "u-1".to_string(),
        include_deleted: false,
    };
    let got = get_user(&storage, ask()).unwrap();
    assert_eq!(got.encrypted_body, b"ubody");

    let entry = soft_delete_user_entry(ask(), 5);
    let outcome = apply(&mut storage, &entry);
    write_reply(outcome).expect("soft delete user");
    assert!(get_user(&storage, ask()).is_err());
}

#[test]
fn updates_need_what_they_update() {
    let mut storage = Storage::new_temp().unwrap();
    let created = create(&mut storage, write(b"x", 1));
    let mut req = write(b"y", 2);
    req.ticket_id = created.ticket_id;
    let entry = update_ticket_entry(req).expect("entry");
    let outcome = apply(&mut storage, &entry);
    let updated = update_ticket_reply(&storage, created.ticket_id, outcome).expect("update");
    assert_eq!(updated.encrypted_body, b"y");

    let mut req = write(b"y", 2);
    req.ticket_id = 99;
    let entry = update_ticket_entry(req).expect("entry");
    let outcome = apply(&mut storage, &entry);
    let err = update_ticket_reply(&storage, 99, outcome).unwrap_err();
    assert_eq!(err.code, Code::Internal);

    assert_eq!(
        update_ticket_entry(write(b"y", 2)).unwrap_err().code,
        Code::InvalidArgument
    );
    let nobody = || UserWrite {
        user_uuid: String::new(),
        encrypted_body: vec![],
        index: None,
    };
    assert_eq!(
        create_user_entry(&nobody()).unwrap_err().code,
        Code::InvalidArgument
    );
    assert_eq!(
        update_user_entry(nobody()).unwrap_err().code,
        Code::InvalidArgument
    );
    let err = update_user_reply(&storage, "u".to_string(), Err("x".to_string())).unwrap_err();
    assert_eq!(err.code, Code::Internal);
}

#[test]
fn a_creation_without_an_id_is_an_internal_error() {
    let err = create_ticket_reply(write(b"x", 1), Ok(None)).unwrap_err();
    assert_eq!(err.code, Code::Internal);
    assert_eq!(err.message, "create_ticket did not return an id");
    assert!(create_ticket_reply(write(b"x", 1), Ok(Some(vec![1]))).is_err());
    assert!(create_ticket_reply(write(b"x", 1), Err("down".to_string())).is_err());
}

#[test]
fn database_service_reports_health_and_cluster_status() {
    let metrics = NodeMetrics {
        id: 1,
        state: ServerState::Follower,
        current_term: 2,
        current_leader: None,
        last_applied: None,
        node_ids: vec![1],
    };
    let answer = health(&metrics);
    assert_eq!(answer.node_id, "1");
    assert!(!answer.role.is_empty());
    assert!(answer.healthy);

    let cluster = cluster_status(&metrics);
    assert!(cluster.member_ids.contains(&"1".to_string()));
    assert_eq!(cluster.term, 2);
    assert_eq!(cluster.commit_index, 0);
}

// ---- Replies from what storage gave ----

fn some_ticket() -> StoredTicket {
    StoredTicket {
        body: b"sealed".to_vec(),
        index: TicketIndexFields {
            status: 1,
            account_uuid: "acct".to_string(),
            assigned_to_uuid: None,
            project: "p".to_string(),
            tracking_url: None,
            created_at_unix: 1,
            updated_at_unix: 2,
        },
        deleted: true,
        deleted_at_unix: 77,
    }
}

fn some_user() -> StoredUser {
    StoredUser {
        body: b"profile".to_vec(),
        index: UserIndexFields {
            username: "alice".to_string(),
            email: "a@example.com".to_string(),
            role: 3,
        },
        deleted: false,
        deleted_at_unix: 0,
    }
}

fn broken() -> StorageError {
    StorageError::Backend("disk".to_string())
}

#[test]
fn a_lookup_answers_what_storage_found() {
    let record = ticket_reply(9, Ok(Some(some_ticket()))).unwrap();
    assert_eq!(record.ticket_id, 9);
    assert_eq!(record.encrypted_body, b"sealed");
    assert!(record.deleted);
    assert_eq!(record.deleted_at_unix, 77);
    let missing = ticket_reply(9, Ok(None)).unwrap_err();
    assert_eq!(missing.code, Code::NotFound);
    assert_eq!(missing.message, "ticket not found");
    let failed = ticket_reply(9, Err(broken())).unwrap_err();
    assert_eq!(failed.code, Code::Internal);
    assert_eq!(failed.message, "Storage read failed: disk");

    let record = user_reply("u-1".to_string(), Ok(Some(some_user()))).unwrap();
    assert_eq!(record.user_uuid, "u-1");
    assert_eq!(record.encrypted_body, b"profile");
    assert!(!record.deleted);
    assert_eq!(record.deleted_at_unix, 0);
    let missing = user_reply("u-1".to_string(), Ok(None)).unwrap_err();
    assert_eq!(missing.code, Code::NotFound);
    assert_eq!(missing.message, "user not found");
    let corrupt = StorageError::Corrupt("row".to_string());
    let failed = user_reply("u-1".to_string(), Err(corrupt)).unwrap_err();
    assert_eq!(failed.code, Code::Internal);
    assert_eq!(failed.message, "Storage read failed: row");
}

#[test]
fn a_query_answers_every_row_or_the_failure() {
    let found = vec![(3, some_ticket()), (8, some_ticket())];
    let records = query_reply(Ok(found)).unwrap();
    let ids: Vec<u64> = records.iter().map(|r| r.ticket_id).collect();
    assert_eq!(ids, vec![3, 8]);
    assert!(query_reply(Ok(vec![])).unwrap().is_empty());
    let failed = query_reply(Err(broken())).unwrap_err();
    assert_eq!(failed.code, Code::Internal);
    assert_eq!(failed.message, "Storage query failed: disk");
}

#[test]
fn values_are_answered_as_storage_read_them() {
    let got = get_reply(Ok(Some(b"v".to_vec()))).unwrap();
    assert!(got.found);
    assert_eq!(got.value, b"v");
    let none = get_reply(Ok(None)).unwrap();
    assert!(!none.found);
    assert!(none.value.is_empty());
    let failed = get_reply(Err(broken())).unwrap_err();
    assert_eq!(failed.message, "Storage read failed: disk");

    let items = list_reply(Ok(vec![(b"k".to_vec(), b"v".to_vec())])).unwrap();
    assert_eq!(items.len(), 1);
    assert_eq!(items[0].key, b"k");
    assert_eq!(items[0].value, b"v");
    let failed = list_reply(Err(broken())).unwrap_err();
    assert_eq!(failed.code, Code::Internal);
    assert_eq!(failed.message, "Storage list failed: disk");

    assert!(exists_reply(Ok(true)).unwrap());
    assert!(!exists_reply(Ok(false)).unwrap());
    let failed = exists_reply(Err(broken())).unwrap_err();
    assert_eq!(failed.code, Code::Internal);
    assert_eq!(failed.message, "Storage check failed: disk");
}
