//! The custodian's locks, its Raft log, its state machine and its snapshots.

use infovulcan::custodian::locks::{
    decide, read_lock, CustodianStateMachine, LockCommand, LockDecision, LockInfo, TREE_LOCKS,
};
use infovulcan::custodian::log_store::{
    last_log_id, read_purged_row, read_vote_row, scan_entries, CustodianStore, ErrorSubject,
    ErrorVerb, IndexBound, RaftMetadata,
};
use infovulcan::custodian::metrics::{count_gauge, init_metrics};
use infovulcan::custodian::snapshot::{dump_collections, replace_collections, Snapshot};
use infovulcan::db::storage::{Storage, StorageError, TREE_RAFT_LOG};
use infovulcan::raft::types::{
    Entry, EntryPayload, LeaderId, LogId, Membership, SnapshotMeta, StoredMembership, Vote,
};

// ---- Locks ----

fn acquire(ticket_id: u64, user_id: u128, at_unix: i64, ttl_secs: i64) -> LockCommand {
    LockCommand::AcquireLock {
        ticket_id,
        user_id,
        at_unix,
        ttl_secs,
    }
}

fn machine() -> CustodianStateMachine {
    CustodianStateMachine::new(Storage::new_temp().unwrap())
}

#[test]
fn test_state_machine_apply_acquire_release() {
    let mut sm = machine();
    let ticket_id = 100u64;
    let user_id = uuid::Uuid::new_v4().as_u128();

    let response = sm.apply(&acquire(ticket_id, user_id, 0, 0)).unwrap();
    assert!(response.success);
    assert!(sm.storage.is_locked(ticket_id).unwrap());

    let entry = LockCommand::ReleaseLock { ticket_id, user_id };
    let response = sm.apply(&entry).unwrap();
    assert!(response.success);
    assert!(!sm.storage.is_locked(ticket_id).unwrap());
}

#[test]
fn expired_lock_can_be_stolen_but_live_lock_cannot() {
    let mut sm = machine();
    let alice = uuid::Uuid::new_v4().as_u128();
    let bob = uuid::Uuid::new_v4().as_u128();
    let ticket_id = 5u64;

    // Alice acquires at t=1000 with a 100s TTL (expires at 1100).
    assert!(sm.apply(&acquire(ticket_id, alice, 1_000, 100)).unwrap().success);

    // Bob tries at t=1050 (still held) -> rejected.
    let denied = sm.apply(&acquire(ticket_id, bob, 1_050, 100)).unwrap();
    assert!(!denied.success);
    assert_eq!(
        sm.storage.get_lock_info(ticket_id).unwrap().unwrap().user_id,
        alice
    );

    // Bob tries at t=1200 (Alice's lock has expired) -> succeeds and takes the lock.
    let stolen = sm.apply(&acquire(ticket_id, bob, 1_200, 100)).unwrap();
    assert!(stolen.success);
    assert_eq!(
        sm.storage.get_lock_info(ticket_id).unwrap().unwrap().user_id,
        bob
    );
}

#[test]
fn state_machine_apply_lock_lifecycle() {
    let mut sm = machine();
    let u1 = uuid::Uuid::from_u128(1).as_u128();
    let u2 = uuid::Uuid::from_u128(2).as_u128();
    let take = |user_id, at_unix| acquire(1, user_id, at_unix, 900);

    // Acquire on a free ticket succeeds.
    assert!(sm.apply(&take(u1, 100)).unwrap().success);

    // A conflicting acquire by another user before expiry is rejected (with the holder).
    let conflict = sm.apply(&take(u2, 200)).unwrap();
    assert!(!conflict.success);
    assert!(conflict.error.is_some());

    // The same holder re-acquiring is allowed.
    assert!(sm.apply(&take(u1, 300)).unwrap().success);

    // Past the TTL, a different user may steal the lock.
    assert!(sm.apply(&take(u2, 100_000)).unwrap().success);

    // Release by a non-holder is rejected; release by the holder succeeds.
    assert!(
        !sm.apply(&LockCommand::ReleaseLock {
            ticket_id: 1,
            user_id: u1,
        })
        .unwrap()
        .success
    );
    assert!(
        sm.apply(&LockCommand::ReleaseLock {
            ticket_id: 1,
            user_id: u2,
        })
        .unwrap()
        .success
    );
}

#[test]
fn a_lock_without_a_time_never_expires() {
    let mut sm = machine();
    assert!(sm.apply(&acquire(1, 7, 10, 0)).unwrap().success);
    assert!(!sm.apply(&acquire(1, 8, i64::MAX, 0)).unwrap().success);
    let lock = sm.storage.get_lock_info(1).unwrap().unwrap();
    assert_eq!(lock.expires_at_unix, 0);
    assert_eq!(lock.acquired_at_unix, 10);
    assert!(!lock.is_expired(i64::MAX));
}

#[test]
fn a_lock_lasts_until_its_time_is_over() {
    let mut sm = machine();
    assert!(sm.apply(&acquire(1, 7, 10, 5)).unwrap().success);
    let lock = sm.storage.get_lock_info(1).unwrap().unwrap();
    assert_eq!(lock.expires_at_unix, 15);
    assert!(!lock.is_expired(14));
    assert!(lock.is_expired(15));
}

#[test]
fn locks_of_other_tickets_stay() {
    let mut sm = machine();
    assert!(sm.apply(&acquire(1, 7, 0, 0)).unwrap().success);
    assert!(sm.apply(&acquire(2, 8, 0, 0)).unwrap().success);
    sm.apply(&LockCommand::ReleaseLock {
        ticket_id: 1,
        user_id: 7,
    })
    .unwrap();
    assert_eq!(sm.storage.get_lock_info(2).unwrap().unwrap().user_id, 8);
}

#[test]
fn an_unreadable_lock_is_an_error() {
    let mut sm = machine();
    sm.storage
        .put(TREE_LOCKS, &1u64.to_be_bytes(), b"garbage")
        .unwrap();
    assert!(matches!(
        sm.storage.get_lock_info(1),
        Err(StorageError::Corrupt(_))
    ));
    assert!(sm.apply(&acquire(1, 7, 0, 0)).is_err());
}

// ---- The log ----

fn at(term: u64, node_id: u64, index: u64) -> LogId {
    LogId {
        leader_id: LeaderId { term, node_id },
        index,
    }
}

fn lock_entry(log_id: LogId, ticket_id: u64) -> Entry<LockCommand> {
    Entry {
        log_id,
        payload: EntryPayload::Normal(acquire(ticket_id, 42, 0, 0)),
    }
}

#[test]
fn test_store_creation() {
    let store = CustodianStore::new_temp().unwrap();
    assert_eq!(store.state_machine.last_applied_log, None);
}

#[test]
fn test_append_and_read_logs() {
    let mut store = CustodianStore::new_temp().unwrap();
    store
        .append_to_log(&vec![lock_entry(at(0, 0, 1), 10)])
        .expect("append_to_log");

    let entries = store
        .try_get_log_entries(IndexBound::Included(0), IndexBound::Included(10))
        .expect("read entries");
    assert_eq!(entries.len(), 1);
    assert_eq!(entries[0].log_id.index, 1);
}

#[test]
fn test_delete_and_purge_logs() {
    let mut store = CustodianStore::new_temp().unwrap();
    let entries: Vec<Entry<LockCommand>> =
        (1u64..=3u64).map(|i| lock_entry(at(0, 0, i), i)).collect();

    store.append_to_log(&entries).expect("append batch");

    // Delete conflicts since index 2 (should remove 2 and 3)
    store
        .delete_conflict_logs_since(at(0, 0, 2))
        .expect("delete conflict");

    let has = |store: &CustodianStore, i: u64| {
        store
            .state_machine
            .storage
            .has_key(TREE_RAFT_LOG, &i.to_be_bytes())
            .unwrap()
    };
    assert!(has(&store, 1));
    assert!(!has(&store, 2));

    // Re-add entries and purge upto 2 (remove 1 and 2)
    store.append_to_log(&entries).expect("re-append");
    store.purge_logs_upto(at(0, 0, 2)).expect("purge");
    assert!(!has(&store, 1));
    assert!(has(&store, 3));
}

#[test]
fn test_get_log_state_and_snapshot_flow() {
    let mut store = CustodianStore::new_temp().unwrap();
    let ticket_id = 99u64;
    let user_id = uuid::Uuid::new_v4().as_u128();
    store
        .state_machine
        .storage
        .acquire_lock(ticket_id, user_id, 1_700_000_000)
        .unwrap();

    // Build snapshot
    let snap = store.build_snapshot().expect("build snapshot");
    assert!(!snap.data.is_empty());

    // Install snapshot into a fresh store
    let mut target = CustodianStore::new_temp().unwrap();
    target
        .install_snapshot(&snap.meta, &snap.data)
        .expect("install snapshot");

    // Verify lock restored
    let got = target
        .state_machine
        .storage
        .get_lock_info(ticket_id)
        .expect("get_lock_info");
    assert!(got.is_some());
    assert_eq!(got.unwrap().user_id, user_id);
}

#[test]
fn test_apply_to_state_machine_blank_and_normal() {
    let mut store = CustodianStore::new_temp().unwrap();
    let blank = Entry {
        log_id: at(1, 1, 1),
        payload: EntryPayload::Blank,
    };
    let normal = lock_entry(at(1, 1, 2), 55);

    let responses = store.apply_to_state_machine(&vec![blank, normal]).unwrap();
    assert_eq!(responses.len(), 2);
    assert!(responses[0].success);
    assert!(responses[1].success);

    // Verify the lock was actually acquired
    assert!(store.state_machine.storage.is_locked(55).unwrap());
}

#[test]
fn test_apply_to_state_machine_membership() {
    let mut store = CustodianStore::new_temp().unwrap();
    let membership = Membership {
        configs: vec![vec![1]],
        node_ids: vec![1],
        addresses: vec![String::new()],
    };
    let entry = Entry {
        log_id: at(1, 1, 1),
        payload: EntryPayload::Membership(membership),
    };

    let responses = store.apply_to_state_machine(&vec![entry]).unwrap();
    assert_eq!(responses.len(), 1);
    assert!(responses[0].success);

    let (last_applied, members) = store.last_applied_state();
    assert!(last_applied.is_some());
    assert_eq!(last_applied.unwrap().index, 1);
    assert_eq!(members.log_id, Some(at(1, 1, 1)));
    assert_eq!(members.membership.configs, vec![vec![1]]);
}

#[test]
fn test_last_applied_state_initial() {
    let store = CustodianStore::new_temp().unwrap();
    let (last_applied, _membership) = store.last_applied_state();
    assert!(last_applied.is_none());
}

#[test]
fn test_try_get_log_entries_excluded_end_bound() {
    let mut store = CustodianStore::new_temp().unwrap();
    for i in 1u64..=3 {
        store
            .append_to_log(&vec![lock_entry(at(1, 1, i), i)])
            .unwrap();
    }

    // Excluded end: 1..3 means indices 1 and 2 only
    let entries = store
        .try_get_log_entries(IndexBound::Included(1), IndexBound::Excluded(3))
        .unwrap();
    assert_eq!(entries.len(), 2);
    assert_eq!(entries[0].log_id.index, 1);
    assert_eq!(entries[1].log_id.index, 2);

    let entries = store
        .try_get_log_entries(IndexBound::Excluded(1), IndexBound::Unbounded)
        .unwrap();
    assert_eq!(entries.len(), 2);
    assert_eq!(entries[0].log_id.index, 2);
}

#[test]
fn test_try_get_log_entries_unbounded() {
    let mut store = CustodianStore::new_temp().unwrap();
    for i in 1u64..=3 {
        store
            .append_to_log(&vec![lock_entry(at(1, 1, i), i)])
            .unwrap();
    }

    // Fully unbounded should return all entries
    let entries = store
        .try_get_log_entries(IndexBound::Unbounded, IndexBound::Unbounded)
        .unwrap();
    assert_eq!(entries.len(), 3);
}

/// Opens a store again: the database lets go of its files a moment after it is dropped.
fn reopened(path: &str) -> CustodianStore {
    let start = std::time::Instant::now();
    loop {
        match CustodianStore::new(path) {
            Ok(store) => return store,
            Err(e) => assert!(start.elapsed().as_secs() < 10, "{e:?}"),
        }
    }
}

#[test]
fn test_raft_metadata_loads_from_existing_storage() {
    let path = format!("/tmp/infovulcan_raft_metadata_{}", uuid::Uuid::new_v4());

    {
        let mut store = CustodianStore::new(&path).unwrap();

        // Save a vote
        let vote = Vote {
            leader_id: LeaderId {
                term: 3,
                node_id: 7,
            },
            committed: false,
        };
        store.save_vote(&vote).unwrap();

        // Append and purge to set last_purged
        store
            .append_to_log(&vec![lock_entry(at(1, 1, 1), 1)])
            .unwrap();
        store.purge_logs_upto(at(1, 1, 1)).unwrap();
    }

    // Recreate from same path – exercises loading from disk
    let store2 = reopened(&path);
    let vote = store2.read_vote();
    assert!(vote.is_some());
    assert_eq!(vote.unwrap().leader_id.term, 3);

    let state = store2.get_log_state().unwrap();
    assert_eq!(state.last_purged_log_id.map(|l| l.index), Some(1));
}

#[test]
fn test_persist_vote_none_clears_vote() {
    let mut store = CustodianStore::new_temp().unwrap();

    let vote = Vote {
        leader_id: LeaderId {
            term: 1,
            node_id: 1,
        },
        committed: false,
    };
    store.save_vote(&vote).unwrap();
    assert!(store.read_vote().is_some());

    store.raft_storage.vote = None;
    RaftMetadata::persist_vote(&mut store.state_machine.storage, &None).unwrap();

    assert!(store.read_vote().is_none());
    let loaded = RaftMetadata::load(&store.state_machine.storage).unwrap();
    assert!(loaded.vote.is_none());
}

#[test]
fn test_log_reader_via_get_log_reader() {
    let mut store = CustodianStore::new_temp().unwrap();
    for i in 1u64..=2 {
        store
            .append_to_log(&vec![lock_entry(at(1, 1, i), i)])
            .unwrap();
    }

    let entries = infovulcan::custodian::log_store::read_log(
        &store.state_machine.storage,
        IndexBound::Included(1),
        IndexBound::Included(2),
    )
    .unwrap();
    assert_eq!(entries.len(), 2);
}

// ---- Corrupted storage ----

fn with_log_row(key: &[u8], value: &[u8]) -> CustodianStore {
    let mut store = CustodianStore::new_temp().unwrap();
    store
        .state_machine
        .storage
        .put(TREE_RAFT_LOG, key, value)
        .unwrap();
    store
}

#[test]
fn try_get_log_entries_errors_on_non_8_byte_key() {
    let store = with_log_row(&[0u8, 0, 0, 0, 0, 0, 0, 0, 1], b"x");
    assert!(store
        .try_get_log_entries(IndexBound::Unbounded, IndexBound::Unbounded)
        .is_err());
}

#[test]
fn try_get_log_entries_errors_on_corrupt_entry_value() {
    let store = with_log_row(&1u64.to_be_bytes(), b"not-a-valid-entry");
    assert!(store
        .try_get_log_entries(IndexBound::Unbounded, IndexBound::Unbounded)
        .is_err());
}

#[test]
fn get_log_state_errors_on_corrupt_last_entry() {
    let store = with_log_row(&5u64.to_be_bytes(), b"garbage");
    assert!(store.get_log_state().is_err());
}

#[test]
fn log_reader_errors_on_corrupt_entry_value() {
    let store = with_log_row(&2u64.to_be_bytes(), b"still-not-json");
    assert!(infovulcan::custodian::log_store::read_log(
        &store.state_machine.storage,
        IndexBound::Unbounded,
        IndexBound::Unbounded,
    )
    .is_err());
}

#[test]
fn install_snapshot_errors_on_corrupt_snapshot_data() {
    let mut store = CustodianStore::new_temp().unwrap();
    let meta = SnapshotMeta {
        last_log_id: None,
        last_membership: StoredMembership::default(),
        snapshot_id: String::new(),
    };
    let err = store.install_snapshot(&meta, b"not a snapshot").unwrap_err();
    assert!(matches!(err.subject, ErrorSubject::Snapshot(None, _)));
    assert_eq!(err.verb, ErrorVerb::Read);
    assert!(matches!(err.cause, StorageError::Corrupt(_)));
}

#[test]
fn metadata_that_cannot_be_read_is_an_error() {
    let mut storage = Storage::new_temp().unwrap();
    storage.put("raft_metadata", b"vote", b"garbage").unwrap();
    assert!(matches!(
        RaftMetadata::load(&storage),
        Err(StorageError::Corrupt(_))
    ));
}

// ---- The whole ----

#[test]
fn applying_a_log_in_parts_is_applying_it_whole() {
    let entries: Vec<Entry<LockCommand>> = (1u64..=4)
        .map(|i| lock_entry(at(1, 1, i), i % 2))
        .collect();
    let mut whole = CustodianStore::new_temp().unwrap();
    whole.apply_to_state_machine(&entries).unwrap();
    let mut parts = CustodianStore::new_temp().unwrap();
    parts
        .apply_to_state_machine(&entries[..2].to_vec())
        .unwrap();
    parts
        .apply_to_state_machine(&entries[2..].to_vec())
        .unwrap();
    assert_eq!(whole.last_applied_state().0, parts.last_applied_state().0);
    assert_eq!(
        whole.state_machine.storage.list(TREE_LOCKS, b"", None).unwrap(),
        parts.state_machine.storage.list(TREE_LOCKS, b"", None).unwrap()
    );
}

#[test]
fn a_snapshot_takes_the_place_of_the_data() {
    let mut source = CustodianStore::new_temp().unwrap();
    source
        .apply_to_state_machine(&vec![lock_entry(at(2, 1, 9), 1)])
        .unwrap();
    source.append_to_log(&vec![lock_entry(at(2, 1, 9), 1)]).unwrap();
    let snap = source.build_snapshot().unwrap();
    assert_eq!(snap.meta.snapshot_id, "snapshot-2-9");
    assert_eq!(snap.meta.last_log_id, Some(at(2, 1, 9)));

    let mut target = CustodianStore::new_temp().unwrap();
    target.state_machine.storage.acquire_lock(5, 5, 0).unwrap();
    target.state_machine.storage.put("more", b"k", b"v").unwrap();
    target.append_to_log(&vec![lock_entry(at(1, 1, 3), 8)]).unwrap();
    target.install_snapshot(&snap.meta, &snap.data).unwrap();
    assert!(!target.state_machine.storage.is_locked(5).unwrap());
    assert!(target.state_machine.storage.is_locked(1).unwrap());
    assert_eq!(target.last_applied_state().0, Some(at(2, 1, 9)));
    assert!(!target.state_machine.storage.has_key("more", b"k").unwrap());
    // Raft's own collections stay.
    assert_eq!(target.get_log_state().unwrap().last_log_id, Some(at(1, 1, 3)));
    let empty = CustodianStore::new_temp().unwrap().build_snapshot().unwrap();
    assert_eq!(empty.meta.snapshot_id, "snapshot-empty");
}

#[test]
fn work_on_the_log_leaves_the_locks() {
    let mut store = CustodianStore::new_temp().unwrap();
    store.state_machine.storage.acquire_lock(5, 5, 0).unwrap();
    store.append_to_log(&vec![lock_entry(at(1, 1, 1), 1)]).unwrap();
    store.purge_logs_upto(at(1, 1, 1)).unwrap();
    assert!(store.state_machine.storage.is_locked(5).unwrap());
    assert!(!store.state_machine.storage.is_locked(1).unwrap());
}

#[test]
fn collections_are_replaced() {
    let mut storage = Storage::new_temp().unwrap();
    storage.put("a", b"1", b"x").unwrap();
    storage.put("b", b"1", b"x").unwrap();
    let items = vec![("a".to_string(), b"2".to_vec(), b"y".to_vec())];
    replace_collections(&mut storage, &vec!["a".to_string()], &items).unwrap();
    assert_eq!(storage.get("a", b"1").unwrap(), None);
    assert_eq!(storage.get("a", b"2").unwrap(), Some(b"y".to_vec()));
    assert_eq!(storage.get("b", b"1").unwrap(), Some(b"x".to_vec()));
    replace_collections(&mut storage, &vec![], &vec![]).unwrap();
    assert!(dump_collections(&storage, &vec![]).unwrap().is_empty());
}

#[test]
fn commands_are_decided_beside_the_lock() {
    let lock = LockInfo {
        ticket_id: 1,
        user_id: 7,
        acquired_at_unix: 0,
        expires_at_unix: 10,
    };
    let release = |user_id| LockCommand::ReleaseLock {
        ticket_id: 1,
        user_id,
    };
    assert!(matches!(decide(None, &acquire(1, 8, 5, 0)), LockDecision::Take));
    assert!(matches!(decide(Some(lock), &acquire(1, 7, 5, 0)), LockDecision::Take));
    assert!(matches!(decide(Some(lock), &acquire(1, 8, 10, 0)), LockDecision::Take));
    assert!(matches!(
        decide(Some(lock), &acquire(1, 8, 9, 0)),
        LockDecision::Refuse(text)
            if text == "ticket 1 is locked by 00000000-0000-0000-0000-000000000007"
    ));
    assert!(matches!(decide(None, &release(8)), LockDecision::Free));
    assert!(matches!(decide(Some(lock), &release(7)), LockDecision::Free));
    assert!(matches!(
        decide(Some(lock), &release(8)),
        LockDecision::Refuse(text) if text == "ticket 1 is held by another user"
    ));
}

#[test]
fn rows_are_read_where_there_are_any() {
    assert!(matches!(read_lock(None), Ok(None)));
    assert!(matches!(read_lock(Some(b"x".to_vec())), Err(StorageError::Corrupt(_))));
    assert!(matches!(read_vote_row(None), Ok(None)));
    assert!(matches!(read_vote_row(Some(b"x".to_vec())), Err(StorageError::Corrupt(_))));
    assert!(matches!(read_purged_row(None), Ok(None)));
    assert!(matches!(read_purged_row(Some(b"x".to_vec())), Err(StorageError::Corrupt(_))));
    assert!(matches!(last_log_id(&vec![]), Ok(None)));
    let bytes = lock_entry(at(3, 2, 9), 1).encode().unwrap();
    let pairs = vec![(9u64.to_be_bytes().to_vec(), bytes)];
    assert_eq!(last_log_id(&pairs).unwrap(), Some(at(3, 2, 9)));
    assert_eq!(scan_entries(&pairs, None).unwrap().len(), 1);
    assert_eq!(scan_entries(&pairs, Some(8)).unwrap().len(), 0);
    let err = scan_entries(&vec![(vec![1], vec![])], None).unwrap_err();
    assert!(matches!(err.subject, ErrorSubject::Log(id) if id == at(0, 0, 0)));
    let bad = vec![(9u64.to_be_bytes().to_vec(), b"x".to_vec())];
    let err = scan_entries(&bad, None).unwrap_err();
    assert!(matches!(err.subject, ErrorSubject::Log(id) if id == at(0, 0, 9)));
}

// ---- Metrics ----

#[test]
fn init_metrics_does_not_panic() {
    let mut metrics = init_metrics();
    assert_eq!(metrics.created_total, 0);
    metrics.built(10);
    metrics.install_started(20);
    metrics.install_completed();
    assert_eq!(metrics.created_total, 1);
    assert_eq!(metrics.install_started_total, 1);
    assert_eq!(metrics.install_completed_total, 1);
    assert_eq!(metrics.last_size_bytes, 20);
    assert_eq!(count_gauge(u64::MAX), i64::MAX);
}

#[test]
fn a_snapshot_is_named_after_what_it_covers() {
    let items = vec![("locks".to_string(), b"k".to_vec(), b"v".to_vec())];
    let membership = StoredMembership::default();
    let snapshot = Snapshot::of_items(&items, Some(at(3, 2, 9)), &membership).unwrap();
    assert_eq!(snapshot.meta.snapshot_id, "snapshot-3-9");
    assert_eq!(snapshot.meta.last_log_id, Some(at(3, 2, 9)));
    assert_eq!(snapshot.data, br#"[["locks",[107],[118]]]"#);
    let empty = Snapshot::of_items(&vec![], None, &membership).unwrap();
    assert_eq!(empty.meta.snapshot_id, "snapshot-empty");
    assert_eq!(empty.data, b"[]");
}
