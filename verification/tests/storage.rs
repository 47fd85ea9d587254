//! Storage: collections, counters, tickets and users with their indexes, and replicated operations.

use infovulcan::db::log::LogEntry;
use infovulcan::db::rows::{
    TicketIndexFields, UserIndexFields, IDX_TICKET_ASSIGNEE, IDX_TICKET_CREATED, IDX_TICKET_PROJECT,
    IDX_TICKET_STATUS, IDX_TICKET_TRACKING, IDX_USER_EMAIL, IDX_USER_NAME, IDX_USER_ROLE,
};
use infovulcan::db::storage::{first_pairs, Storage, StorageError, TicketQuery};
use infovulcan::db::tickets::{
    deleted_ticket, ids_in_keys, ids_in_values, queried_ticket, shown_ticket, updated_ticket,
};
use infovulcan::db::users::{deleted_user, shown_user, texts_in_values, updated_user};

#[test]
fn test_storage_put_get() {
    let mut storage = Storage::new_temp().unwrap();
    let collection = "test_coll";

    storage.put(collection, b"test_key", b"test_value").unwrap();
    let value = storage.get(collection, b"test_key").unwrap();

    assert_eq!(value, Some(b"test_value".to_vec()));
}

#[test]
fn test_storage_delete() {
    let mut storage = Storage::new_temp().unwrap();
    let collection = "test_coll";

    storage.put(collection, b"key1", b"value1").unwrap();
    assert!(storage.has_key(collection, b"key1").unwrap());

    storage.delete(collection, b"key1").unwrap();
    assert!(!storage.has_key(collection, b"key1").unwrap());
}

#[test]
fn test_storage_list() {
    let mut storage = Storage::new_temp().unwrap();
    let collection = "test_coll";

    storage.put(collection, b"user:1", b"alice").unwrap();
    storage.put(collection, b"user:2", b"bob").unwrap();
    storage.put(collection, b"post:1", b"hello").unwrap();

    let pairs = storage.list(collection, b"user:", None).unwrap();
    assert_eq!(pairs.len(), 2);
    assert!(pairs.iter().any(|(k, _)| k == b"user:1"));
    assert!(pairs.iter().any(|(k, _)| k == b"user:2"));
}

#[test]
fn test_storage_batch_put() {
    let mut storage = Storage::new_temp().unwrap();
    let collection = "test_coll";

    let pairs = vec![
        (b"a".to_vec(), b"1".to_vec()),
        (b"b".to_vec(), b"2".to_vec()),
        (b"c".to_vec(), b"3".to_vec()),
    ];

    let count = storage.batch_put(collection, &pairs).unwrap();
    assert_eq!(count, 3);

    assert_eq!(storage.get(collection, b"a").unwrap(), Some(b"1".to_vec()));
    assert_eq!(storage.get(collection, b"b").unwrap(), Some(b"2".to_vec()));
    assert_eq!(storage.get(collection, b"c").unwrap(), Some(b"3".to_vec()));
}

#[test]
fn test_log_entry_apply() {
    let mut storage = Storage::new_temp().unwrap();
    let collection = "test_coll";

    let entry = LogEntry::Put {
        collection: collection.to_string(),
        key: b"test".to_vec(),
        value: b"data".to_vec(),
    };

    assert!(entry.apply(&mut storage).unwrap().is_none());
    assert_eq!(
        storage.get(collection, b"test").unwrap(),
        Some(b"data".to_vec())
    );
}

#[test]
fn log_entry_apply_covers_all_variants() {
    let mut storage = Storage::new_temp().unwrap();

    // Generic KV variants via the apply() dispatch.
    LogEntry::Put {
        collection: "c".to_string(),
        key: b"k".to_vec(),
        value: b"v".to_vec(),
    }
    .apply(&mut storage)
    .unwrap();
    assert!(
        LogEntry::Get {
            collection: "c".to_string(),
            key: b"k".to_vec(),
        }
        .apply(&mut storage)
        .unwrap()
        .is_none()
    );
    LogEntry::BatchPut {
        collection: "c".to_string(),
        pairs: vec![(b"a".to_vec(), b"1".to_vec())],
    }
    .apply(&mut storage)
    .unwrap();
    LogEntry::Delete {
        collection: "c".to_string(),
        key: b"k".to_vec(),
    }
    .apply(&mut storage)
    .unwrap();
    assert!(!storage.has_key("c", b"k").unwrap());

    // Ticket domain variants: CreateTicket returns the assigned id.
    let created = LogEntry::CreateTicket {
        body: b"tbody".to_vec(),
        index: sample_index(1),
    }
    .apply(&mut storage)
    .unwrap()
    .expect("create returns id");
    let id = u64::from_be_bytes(created.try_into().expect("8-byte id"));
    LogEntry::UpdateTicket {
        ticket_id: id,
        body: b"tbody2".to_vec(),
        index: sample_index(2),
    }
    .apply(&mut storage)
    .unwrap();
    assert_eq!(
        storage.get_ticket(id, false).unwrap().unwrap().body,
        b"tbody2"
    );
    LogEntry::SoftDeleteTicket {
        ticket_id: id,
        at_unix: 5,
    }
    .apply(&mut storage)
    .unwrap();
    assert!(storage.get_ticket(id, false).unwrap().is_none());

    // User domain variants.
    let uidx = || UserIndexFields {
        username: "bob".to_string(),
        email: "b@e.com".to_string(),
        role: 2,
    };
    LogEntry::CreateUser {
        user_uuid: "u1".to_string(),
        body: b"ub".to_vec(),
        index: uidx(),
    }
    .apply(&mut storage)
    .unwrap();
    LogEntry::UpdateUser {
        user_uuid: "u1".to_string(),
        body: b"ub2".to_vec(),
        index: uidx(),
    }
    .apply(&mut storage)
    .unwrap();
    assert_eq!(storage.get_user("u1", false).unwrap().unwrap().body, b"ub2");
    LogEntry::SoftDeleteUser {
        user_uuid: "u1".to_string(),
        at_unix: 7,
    }
    .apply(&mut storage)
    .unwrap();
    assert!(storage.get_user("u1", false).unwrap().is_none());
}

#[test]
fn storage_misc_paths_are_covered() {
    let mut storage = Storage::new_temp().unwrap();

    // list honours the limit
    for i in 0..5u8 {
        storage.put("c", &[b'k', i], b"v").unwrap();
    }
    assert_eq!(storage.list("c", b"k", Some(2)).unwrap().len(), 2);

    // get of a missing key
    assert!(storage.get("c", b"absent").unwrap().is_none());

    // next_id is monotonic per sequence name
    let a = storage.next_id(b"seq").unwrap();
    let b = storage.next_id(b"seq").unwrap();
    assert_eq!(b, a + 1);

    // data_tree_names skips the Raft bookkeeping trees
    assert!(!storage.data_tree_names().iter().any(|n| n.contains("raft")));

    // a soft-deleted ticket is hidden by default but visible with include_deleted
    let id = storage.create_ticket(b"body", &sample_index(1)).unwrap();
    storage.soft_delete_ticket(id, 1).unwrap();
    assert!(storage.get_ticket(id, false).unwrap().is_none());
    assert!(storage.get_ticket(id, true).unwrap().unwrap().deleted);
}

#[test]
fn query_tickets_by_each_index_dimension() {
    let mut storage = Storage::new_temp().unwrap();
    let mk = |status, account: &str, assignee: &str, project: &str| TicketIndexFields {
        status,
        account_uuid: account.to_string(),
        assigned_to_uuid: Some(assignee.to_string()),
        project: project.to_string(),
        tracking_url: None,
        created_at_unix: 1,
        updated_at_unix: 1,
    };
    storage
        .create_ticket(b"b1", &mk(1, "acctA", "agentX", "projP"))
        .unwrap();
    storage
        .create_ticket(b"b2", &mk(2, "acctB", "agentY", "projQ"))
        .unwrap();

    // Each branch selects candidates via a different secondary index.
    let by_assignee = storage
        .query_tickets(&TicketQuery {
            assigned_to_uuid: Some("agentX".to_string()),
            ..Default::default()
        })
        .unwrap();
    assert_eq!(by_assignee.len(), 1);

    let by_account = storage
        .query_tickets(&TicketQuery {
            account_uuid: Some("acctB".to_string()),
            ..Default::default()
        })
        .unwrap();
    assert_eq!(by_account.len(), 1);

    let by_project = storage
        .query_tickets(&TicketQuery {
            project: Some("projP".to_string()),
            ..Default::default()
        })
        .unwrap();
    assert_eq!(by_project.len(), 1);

    // No filter → all active tickets.
    assert_eq!(
        storage
            .query_tickets(&TicketQuery::default())
            .unwrap()
            .len(),
        2
    );

    // include_deleted scans all ids (including a soft-deleted one).
    let id = storage
        .create_ticket(b"b3", &mk(1, "acctC", "agentZ", "projR"))
        .unwrap();
    storage.soft_delete_ticket(id, 1).unwrap();
    let with_deleted = storage
        .query_tickets(&TicketQuery {
            include_deleted: true,
            ..Default::default()
        })
        .unwrap();
    assert!(with_deleted.iter().any(|(i, _)| *i == id));

    // scan_index_ids_str resolves the assignee index to ticket ids.
    assert!(
        !storage
            .scan_index_ids_str(IDX_TICKET_ASSIGNEE, b"agentX")
            .unwrap()
            .is_empty()
    );
}

#[test]
fn update_user_moves_index_entries() {
    let mut storage = Storage::new_temp().unwrap();
    storage
        .create_user(
            "u1",
            b"body",
            &UserIndexFields {
                username: "old".to_string(),
                email: "old@e.com".to_string(),
                role: 1,
            },
        )
        .unwrap();
    // Rename: the old username index entry must be removed and a new one written.
    storage
        .update_user(
            "u1",
            b"body2",
            &UserIndexFields {
                username: "new".to_string(),
                email: "new@e.com".to_string(),
                role: 2,
            },
        )
        .unwrap();
    assert!(
        storage
            .scan_index_ids_str(IDX_USER_NAME, b"old")
            .unwrap()
            .is_empty()
    );
    assert_eq!(
        storage.scan_index_ids_str(IDX_USER_NAME, b"new").unwrap(),
        vec!["u1".to_string()]
    );
    // The deleted user is hidden by default but visible with include_deleted.
    storage.soft_delete_user("u1", 9).unwrap();
    assert!(storage.get_user("u1", false).unwrap().is_none());
    assert!(storage.get_user("u1", true).unwrap().unwrap().deleted);
}

fn sample_index(status: u8) -> TicketIndexFields {
    TicketIndexFields {
        status,
        account_uuid: "acct-1".to_string(),
        assigned_to_uuid: Some("agent-1".to_string()),
        project: "proj-x".to_string(),
        tracking_url: None,
        created_at_unix: 1_000,
        updated_at_unix: 1_000,
    }
}

#[test]
fn create_ticket_assigns_monotonic_ids() {
    let mut storage = Storage::new_temp().unwrap();
    let id1 = storage.create_ticket(b"body1", &sample_index(1)).unwrap();
    let id2 = storage.create_ticket(b"body2", &sample_index(1)).unwrap();
    let id3 = storage.create_ticket(b"body3", &sample_index(1)).unwrap();
    assert_eq!((id1, id2, id3), (1, 2, 3));
}

#[test]
fn create_ticket_roundtrips_body_and_populates_indexes() {
    let mut storage = Storage::new_temp().unwrap();
    let id = storage.create_ticket(b"secret", &sample_index(1)).unwrap();

    let stored = storage.get_ticket(id, false).unwrap().unwrap();
    assert_eq!(stored.body, b"secret");
    assert!(!stored.deleted);

    // Status index points at the ticket.
    let ids = storage.scan_index_ids(IDX_TICKET_STATUS, &[1]).unwrap();
    assert_eq!(ids, vec![id]);
    // Assignee index populated (it was Some).
    let by_assignee = storage
        .scan_index_ids(IDX_TICKET_ASSIGNEE, b"agent-1")
        .unwrap();
    assert_eq!(by_assignee, vec![id]);
}

#[test]
fn update_ticket_moves_index_entries() {
    let mut storage = Storage::new_temp().unwrap();
    let id = storage.create_ticket(b"body", &sample_index(1)).unwrap();

    let mut updated = sample_index(2);
    updated.assigned_to_uuid = Some("agent-2".to_string());
    storage.update_ticket(id, b"body2", &updated).unwrap();

    // Old status/assignee entries gone, new ones present.
    assert!(
        storage
            .scan_index_ids(IDX_TICKET_STATUS, &[1])
            .unwrap()
            .is_empty()
    );
    assert_eq!(
        storage.scan_index_ids(IDX_TICKET_STATUS, &[2]).unwrap(),
        vec![id]
    );
    assert!(
        storage
            .scan_index_ids(IDX_TICKET_ASSIGNEE, b"agent-1")
            .unwrap()
            .is_empty()
    );
    assert_eq!(
        storage
            .scan_index_ids(IDX_TICKET_ASSIGNEE, b"agent-2")
            .unwrap(),
        vec![id]
    );
    assert_eq!(
        storage.get_ticket(id, false).unwrap().unwrap().body,
        b"body2"
    );
}

#[test]
fn soft_delete_removes_from_active_indexes_but_keeps_row() {
    let mut storage = Storage::new_temp().unwrap();
    let id = storage.create_ticket(b"body", &sample_index(1)).unwrap();

    storage.soft_delete_ticket(id, 5_000).unwrap();

    // Dropped from active indexes.
    assert!(
        storage
            .scan_index_ids(IDX_TICKET_STATUS, &[1])
            .unwrap()
            .is_empty()
    );
    // Hidden from normal reads, visible with include_deleted (audit row retained).
    assert!(storage.get_ticket(id, false).unwrap().is_none());
    let stored = storage.get_ticket(id, true).unwrap().unwrap();
    assert!(stored.deleted);
    assert_eq!(stored.deleted_at_unix, 5_000);
}

#[test]
fn query_by_status_returns_only_matching_active() {
    let mut storage = Storage::new_temp().unwrap();
    let open = storage.create_ticket(b"a", &sample_index(1)).unwrap();
    let _closed = storage.create_ticket(b"b", &sample_index(9)).unwrap();
    let deleted = storage.create_ticket(b"c", &sample_index(1)).unwrap();
    storage.soft_delete_ticket(deleted, 1).unwrap();

    let q = TicketQuery {
        status: Some(1),
        ..Default::default()
    };
    let results = storage.query_tickets(&q).unwrap();
    assert_eq!(results.len(), 1);
    assert_eq!(results[0].0, open);
}

#[test]
fn query_applies_multiple_filters_and_limit() {
    let mut storage = Storage::new_temp().unwrap();
    // Two open tickets for agent-1, one for agent-2.
    let t1 = storage.create_ticket(b"a", &sample_index(1)).unwrap();
    let t2 = storage.create_ticket(b"b", &sample_index(1)).unwrap();
    let mut other = sample_index(1);
    other.assigned_to_uuid = Some("agent-2".to_string());
    let t3 = storage.create_ticket(b"c", &other).unwrap();

    // status=1 AND assignee=agent-1 matches t1 and t2 (not t3); limit caps at 1.
    let q = TicketQuery {
        status: Some(1),
        assigned_to_uuid: Some("agent-1".to_string()),
        limit: 1,
        ..Default::default()
    };
    let results = storage.query_tickets(&q).unwrap();
    assert_eq!(results.len(), 1);
    let matched = results[0].0;
    assert!(matched == t1 || matched == t2);
    assert_ne!(matched, t3);
}

#[test]
fn user_crud_roundtrip_and_soft_delete() {
    let mut storage = Storage::new_temp().unwrap();
    let idx = UserIndexFields {
        username: "alice".to_string(),
        email: "alice@example.com".to_string(),
        role: 2,
    };
    storage.create_user("uuid-1", b"ubody", &idx).unwrap();

    let stored = storage.get_user("uuid-1", false).unwrap().unwrap();
    assert_eq!(stored.body, b"ubody");
    assert_eq!(
        storage.scan_index_ids_str(IDX_USER_NAME, b"alice").unwrap(),
        vec!["uuid-1".to_string()]
    );

    storage.soft_delete_user("uuid-1", 9).unwrap();
    assert!(storage.get_user("uuid-1", false).unwrap().is_none());
    assert!(storage.get_user("uuid-1", true).unwrap().unwrap().deleted);
    assert!(
        storage
            .scan_index_ids_str(IDX_USER_NAME, b"alice")
            .unwrap()
            .is_empty()
    );
}

#[test]
fn inner_handle_get_ticket_missing_and_tracking_index() {
    let mut storage = Storage::new_temp().unwrap();

    // inner() exposes the underlying sled Db handle.
    assert!(storage.inner().open_tree(b"probe").is_ok());

    // get_ticket on a never-created id takes the `None` arm.
    assert!(storage.get_ticket(123_456, false).unwrap().is_none());

    // A ticket carrying a tracking_url populates the tracking secondary index.
    let mut idx = sample_index(1);
    idx.tracking_url = Some("http://portal/track/1".to_string());
    let id = storage.create_ticket(b"body", &idx).unwrap();
    assert!(
        !storage
            .scan_index_ids(IDX_TICKET_TRACKING, b"http://portal/track/1")
            .unwrap()
            .is_empty()
    );

    // A full-scan query (no filter) skips a soft-deleted candidate.
    storage.soft_delete_ticket(id, 1).unwrap();
    let active = storage.query_tickets(&TicketQuery::default()).unwrap();
    assert!(active.iter().all(|(i, _)| *i != id));
}

#[test]
fn query_in_memory_filters_skip_nonmatching_candidates() {
    let mut storage = Storage::new_temp().unwrap();
    let mk = |account: &str, assignee: &str, project: &str| TicketIndexFields {
        status: 1,
        account_uuid: account.to_string(),
        assigned_to_uuid: Some(assignee.to_string()),
        project: project.to_string(),
        tracking_url: None,
        created_at_unix: 1,
        updated_at_unix: 1,
    };
    // Both share status=1 so candidate selection uses the status index and the secondary
    // predicates run in memory — exercising each predicate's skip (`continue`) arm.
    storage
        .create_ticket(b"a", &mk("acctA", "agentX", "projP"))
        .unwrap();
    storage
        .create_ticket(b"b", &mk("acctB", "agentY", "projQ"))
        .unwrap();

    let by_assignee = storage
        .query_tickets(&TicketQuery {
            status: Some(1),
            assigned_to_uuid: Some("agentX".to_string()),
            ..Default::default()
        })
        .unwrap();
    assert_eq!(by_assignee.len(), 1);

    let by_account = storage
        .query_tickets(&TicketQuery {
            status: Some(1),
            account_uuid: Some("acctA".to_string()),
            ..Default::default()
        })
        .unwrap();
    assert_eq!(by_account.len(), 1);

    let by_project = storage
        .query_tickets(&TicketQuery {
            status: Some(1),
            project: Some("projP".to_string()),
            ..Default::default()
        })
        .unwrap();
    assert_eq!(by_project.len(), 1);
}

#[test]
fn storage_keeps_what_it_held_across_openings() {
    let path = format!("/tmp/infovulcan_storage_{}", uuid::Uuid::new_v4());
    {
        let mut storage = Storage::new(&path).unwrap();
        storage.put("c", b"k", b"v").unwrap();
    }
    // The database lets go of its files a moment after it is dropped.
    let start = std::time::Instant::now();
    let storage = loop {
        match Storage::new(&path) {
            Ok(storage) => break storage,
            Err(e) => assert!(start.elapsed().as_secs() < 10, "{e:?}"),
        }
    };
    assert_eq!(storage.get("c", b"k").unwrap(), Some(b"v".to_vec()));
}

#[test]
fn a_path_below_a_file_cannot_be_opened() {
    let opened = Storage::new("/dev/null/database");
    assert!(matches!(opened, Err(StorageError::Backend(_))));
}

#[test]
fn collections_do_not_share_keys() {
    let mut storage = Storage::new_temp().unwrap();
    storage.put("a", b"k", b"1").unwrap();
    storage.put("b", b"k", b"2").unwrap();
    storage.delete("a", b"k").unwrap();
    assert_eq!(storage.get("a", b"k").unwrap(), None);
    assert_eq!(storage.get("b", b"k").unwrap(), Some(b"2".to_vec()));
}

#[test]
fn listings_are_in_key_order_and_can_start_or_end_at_a_key() {
    let mut storage = Storage::new_temp().unwrap();
    for key in [b"b", b"d", b"a", b"c"] {
        storage.put("c", key, key).unwrap();
    }
    let keys = |pairs: Vec<(Vec<u8>, Vec<u8>)>| -> Vec<Vec<u8>> {
        pairs.into_iter().map(|(k, _)| k).collect()
    };
    assert_eq!(
        keys(storage.list("c", b"", None).unwrap()),
        vec![b"a".to_vec(), b"b".to_vec(), b"c".to_vec(), b"d".to_vec()]
    );
    assert_eq!(
        keys(storage.list_from("c", b"c").unwrap()),
        vec![b"c".to_vec(), b"d".to_vec()]
    );
    assert_eq!(
        keys(storage.list_through("c", b"b").unwrap()),
        vec![b"a".to_vec(), b"b".to_vec()]
    );
    assert!(storage.list("c", b"", Some(0)).unwrap().is_empty());
}

#[test]
fn the_last_of_two_values_for_a_key_stays() {
    let mut storage = Storage::new_temp().unwrap();
    let pairs = vec![
        (b"k".to_vec(), b"1".to_vec()),
        (b"k".to_vec(), b"2".to_vec()),
    ];
    assert_eq!(storage.batch_put("c", &pairs).unwrap(), 2);
    assert_eq!(storage.get("c", b"k").unwrap(), Some(b"2".to_vec()));
}

#[test]
fn counters_start_at_one_and_do_not_disturb_each_other() {
    let mut storage = Storage::new_temp().unwrap();
    assert_eq!(storage.next_id(b"x").unwrap(), 1);
    assert_eq!(storage.next_id(b"y").unwrap(), 1);
    assert_eq!(storage.next_id(b"x").unwrap(), 2);
}

#[test]
fn a_counter_that_is_no_number_starts_anew() {
    let mut storage = Storage::new_temp().unwrap();
    storage.put("seq", b"x", b"abc").unwrap();
    assert_eq!(storage.next_id(b"x").unwrap(), 1);
}

#[test]
fn data_collections_are_named() {
    let mut storage = Storage::new_temp().unwrap();
    storage.put("raft_log", b"k", b"v").unwrap();
    storage.put("raft_state", b"k", b"v").unwrap();
    storage.put("raft_metadata", b"k", b"v").unwrap();
    storage.put("caf\u{e9}", b"k", b"v").unwrap();
    assert_eq!(storage.data_tree_names(), vec!["caf\u{e9}".to_string()]);
}

#[test]
fn names_that_are_no_text_are_mended() {
    let storage = Storage::new_temp().unwrap();
    storage.inner().open_tree([0x61, 0xff]).unwrap();
    assert_eq!(storage.data_tree_names(), vec!["a\u{fffd}".to_string()]);
}

#[test]
fn changing_what_does_not_exist_is_an_error() {
    let mut storage = Storage::new_temp().unwrap();
    let error = storage.update_ticket(7, b"b", &sample_index(1)).unwrap_err();
    assert!(matches!(&error, StorageError::NotFound(_)));
    assert_eq!(error.message(), "ticket 7 not found");
    assert!(matches!(
        storage.soft_delete_ticket(7, 1),
        Err(StorageError::NotFound(_))
    ));
    let user = UserIndexFields {
        username: "a".to_string(),
        email: "e".to_string(),
        role: 1,
    };
    let error = storage.update_user("u", b"b", &user).unwrap_err();
    assert_eq!(error.message(), "user u not found");
    assert!(matches!(
        storage.soft_delete_user("u", 1),
        Err(StorageError::NotFound(_))
    ));
}

#[test]
fn a_row_that_cannot_be_read_is_an_error() {
    let mut storage = Storage::new_temp().unwrap();
    storage.put("tickets", &7u64.to_be_bytes(), b"garbage").unwrap();
    assert!(matches!(
        storage.get_ticket(7, true),
        Err(StorageError::Corrupt(_))
    ));
    assert!(matches!(
        storage.query_tickets(&TicketQuery::default()),
        Err(StorageError::Corrupt(_))
    ));
    storage.put("users", b"u", b"garbage").unwrap();
    assert!(matches!(
        storage.get_user("u", true),
        Err(StorageError::Corrupt(_))
    ));
}

#[test]
fn a_deleted_ticket_stays_deleted_when_it_is_updated() {
    let mut storage = Storage::new_temp().unwrap();
    let id = storage.create_ticket(b"body", &sample_index(1)).unwrap();
    storage.soft_delete_ticket(id, 5).unwrap();
    storage.update_ticket(id, b"new", &sample_index(2)).unwrap();
    let stored = storage.get_ticket(id, true).unwrap().unwrap();
    assert!(stored.deleted);
    assert_eq!(stored.deleted_at_unix, 5);
    assert_eq!(stored.body, b"new");
    assert_eq!(stored.index.status, 2);
    assert!(storage.scan_index_ids(IDX_TICKET_STATUS, &[2]).unwrap().is_empty());
}

#[test]
fn answers_come_in_the_order_of_ids() {
    let mut storage = Storage::new_temp().unwrap();
    for _ in 0..300 {
        storage.create_ticket(b"b", &sample_index(1)).unwrap();
    }
    let ids = |query: &TicketQuery| -> Vec<u64> {
        storage
            .query_tickets(query)
            .unwrap()
            .into_iter()
            .map(|(id, _)| id)
            .collect()
    };
    let all: Vec<u64> = (1..=300).collect();
    assert_eq!(ids(&TicketQuery::default()), all);
    let by_status = TicketQuery {
        status: Some(1),
        ..Default::default()
    };
    assert_eq!(ids(&by_status), all);
    let first = TicketQuery {
        status: Some(1),
        limit: 3,
        ..Default::default()
    };
    assert_eq!(ids(&first), vec![1, 2, 3]);
}

#[test]
fn a_user_is_entered_in_every_index() {
    let mut storage = Storage::new_temp().unwrap();
    let user = UserIndexFields {
        username: "ann".to_string(),
        email: "ann@e.com".to_string(),
        role: 3,
    };
    storage.create_user("u1", b"b", &user).unwrap();
    let found = vec!["u1".to_string()];
    assert_eq!(storage.scan_index_ids_str(IDX_USER_NAME, b"ann").unwrap(), found);
    assert_eq!(storage.scan_index_ids_str(IDX_USER_EMAIL, b"ann@e.com").unwrap(), found);
    assert_eq!(storage.scan_index_ids_str(IDX_USER_ROLE, &[3]).unwrap(), found);
    assert!(storage.scan_index_ids_str(IDX_USER_NAME, b"an").unwrap().is_empty());
}

#[test]
fn the_same_log_gives_the_same_storage() {
    let entries = vec![
        LogEntry::CreateTicket { body: b"one".to_vec(), index: sample_index(1) },
        LogEntry::UpdateTicket { ticket_id: 9, body: b"x".to_vec(), index: sample_index(1) },
        LogEntry::CreateTicket { body: b"two".to_vec(), index: sample_index(2) },
        LogEntry::SoftDeleteTicket { ticket_id: 1, at_unix: 4 },
    ];
    let mut whole = Storage::new_temp().unwrap();
    let mut parts = Storage::new_temp().unwrap();
    for entry in &entries {
        let _ = entry.apply(&mut whole);
    }
    for entry in &entries[..2] {
        let _ = entry.apply(&mut parts);
    }
    for entry in &entries[2..] {
        let _ = entry.apply(&mut parts);
    }
    for tree in ["tickets", "seq", IDX_TICKET_STATUS, IDX_TICKET_ASSIGNEE] {
        assert_eq!(
            whole.list(tree, b"", None).unwrap(),
            parts.list(tree, b"", None).unwrap()
        );
    }
    assert_eq!(whole.list("tickets", b"", None).unwrap().len(), 2);
}

#[test]
fn a_storage_stands_over_the_database_that_was_opened() {
    let db = sled::Config::new().temporary(true).open().unwrap();
    db.open_tree("c").unwrap().insert(b"k", b"v").unwrap();
    let storage = Storage::over(Ok(db)).unwrap();
    assert_eq!(storage.get("c", b"k").unwrap(), Some(b"v".to_vec()));
    let failed = Storage::over(Err(sled::Error::Unsupported("no".to_string())));
    assert!(matches!(failed, Err(StorageError::Backend(_))));
}

#[test]
fn storages_in_two_directories_are_two() {
    let path = |i: u32| format!("/tmp/infovulcan_storage_{i}_{}", uuid::Uuid::new_v4());
    let mut one = Storage::new(&path(1)).unwrap();
    let other = Storage::new(&path(2)).unwrap();
    one.put("c", b"k", b"v").unwrap();
    assert_eq!(one.get("c", b"k").unwrap(), Some(b"v".to_vec()));
    assert_eq!(other.get("c", b"k").unwrap(), None);
}

#[test]
fn rows_are_decided_on_as_they_are_read() {
    let mut storage = Storage::new_temp().unwrap();
    let id = storage.create_ticket(b"body", &sample_index(1)).unwrap();
    let row = storage.get("tickets", &id.to_be_bytes()).unwrap();
    assert_eq!(shown_ticket(row.clone(), false).unwrap().unwrap().body, b"body");
    let (before, after) = updated_ticket(id, row.clone(), b"new", &sample_index(2)).unwrap();
    assert_eq!((before.index.status, after.index.status), (1, 2));
    assert_eq!(after.body, b"new");
    let (_, gone) = deleted_ticket(id, row.clone(), 9).unwrap();
    assert!(gone.deleted);
    assert_eq!(gone.deleted_at_unix, 9);
    let other = TicketQuery {
        status: Some(7),
        ..Default::default()
    };
    assert!(queried_ticket(row.clone(), &other).unwrap().is_none());
    assert!(queried_ticket(row, &TicketQuery::default()).unwrap().is_some());
    assert!(shown_ticket(None, true).unwrap().is_none());
    assert!(matches!(
        updated_ticket(3, None, b"", &sample_index(1)),
        Err(StorageError::NotFound(text)) if text == "ticket 3 not found"
    ));
    let bad = || Some(b"bad".to_vec());
    assert!(matches!(shown_ticket(bad(), true), Err(StorageError::Corrupt(_))));
    assert!(matches!(deleted_ticket(3, bad(), 1), Err(StorageError::Corrupt(_))));
    let user = UserIndexFields {
        username: "ann".to_string(),
        email: "e".to_string(),
        role: 1,
    };
    storage.create_user("u", b"b", &user).unwrap();
    let row = storage.get("users", b"u").unwrap();
    assert_eq!(shown_user(row.clone(), false).unwrap().unwrap().index.username, "ann");
    assert_eq!(updated_user("u", row.clone(), b"c", &user).unwrap().1.body, b"c");
    assert!(deleted_user("u", row, 1).unwrap().1.deleted);
    assert!(matches!(deleted_user("u", None, 1), Err(StorageError::NotFound(_))));
}

#[test]
fn a_scan_gives_the_live_users_with_a_value() {
    let mut storage = Storage::new_temp().unwrap();
    let user = |name: &str| UserIndexFields {
        username: name.to_string(),
        email: "e".to_string(),
        role: 0,
    };
    storage.create_user("u1", b"b", &user("ann")).unwrap();
    storage.create_user("u2", b"b", &user("ann")).unwrap();
    storage.create_user("u3", b"b", &user("anna")).unwrap();
    storage.create_user("u4", b"b", &user("ann")).unwrap();
    storage.soft_delete_user("u4", 1).unwrap();
    let found = vec!["u1".to_string(), "u2".to_string()];
    assert_eq!(storage.scan_index_ids_str(IDX_USER_NAME, b"ann").unwrap(), found);
    assert_eq!(storage.scan_index_ids_str(IDX_USER_ROLE, &[0]).unwrap().len(), 3);
}

#[test]
fn a_scan_gives_the_live_tickets_with_a_value() {
    let mut storage = Storage::new_temp().unwrap();
    let ticket = |project: &str, status: u8| TicketIndexFields {
        project: project.to_string(),
        ..sample_index(status)
    };
    let a = storage.create_ticket(b"a", &ticket("net", 0)).unwrap();
    let b = storage.create_ticket(b"b", &ticket("network", 0)).unwrap();
    let c = storage.create_ticket(b"c", &ticket("net", 1)).unwrap();
    let d = storage.create_ticket(b"d", &ticket("net", 0)).unwrap();
    storage.soft_delete_ticket(d, 9).unwrap();
    storage.update_ticket(b, b"b", &ticket("net", 0)).unwrap();
    assert_eq!(storage.scan_index_ids(IDX_TICKET_PROJECT, b"net").unwrap(), vec![a, b, c]);
    assert!(storage.scan_index_ids(IDX_TICKET_PROJECT, b"network").unwrap().is_empty());
    assert_eq!(storage.scan_index_ids(IDX_TICKET_STATUS, &[0]).unwrap(), vec![a, b]);
    let created = 1_000i64.to_be_bytes();
    assert_eq!(storage.scan_index_ids(IDX_TICKET_CREATED, &created).unwrap(), vec![a, b, c]);
}

#[test]
fn applying_a_read_changes_nothing() {
    let mut storage = Storage::new_temp().unwrap();
    storage.put("c", b"k", b"v").unwrap();
    let entry = LogEntry::Get {
        collection: "c".to_string(),
        key: b"k".to_vec(),
    };
    assert!(matches!(entry.apply(&mut storage), Ok(None)));
    assert_eq!(storage.get("c", b"k").unwrap(), Some(b"v".to_vec()));
}

#[test]
fn listings_are_read_pair_by_pair() {
    let pairs = vec![
        (7u64.to_be_bytes().to_vec(), b"alice".to_vec()),
        (b"no id".to_vec(), 5u64.to_be_bytes().to_vec()),
        (300u64.to_be_bytes().to_vec(), vec![0x62, 0xff, 0x63]),
    ];
    assert_eq!(ids_in_keys(&pairs), vec![7, 300]);
    assert_eq!(ids_in_values(&pairs), vec![5]);
    let texts = texts_in_values(&pairs);
    assert_eq!(texts.len(), 3);
    assert_eq!(texts[0], "alice");
    assert_eq!(texts[2], "b\u{fffd}c");

    assert_eq!(first_pairs(pairs.clone(), None), pairs);
    assert_eq!(first_pairs(pairs.clone(), Some(2)), pairs[..2].to_vec());
    assert_eq!(first_pairs(pairs.clone(), Some(9)), pairs);
    assert!(first_pairs(pairs, Some(0)).is_empty());
}
