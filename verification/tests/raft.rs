//! The wire format of Raft, its service and its network.

use std::collections::HashMap;

use infovulcan::custodian::locks::LockCommand;
use infovulcan::db::log::LogEntry;
use infovulcan::raft::messages::{
    AppendCall, AppendReply, ProtoLogId, ProtoSnapshotMeta, ProtoVote, SnapshotCall, SnapshotReply,
    VoteCall, VoteReply,
};
use infovulcan::raft::network::{
    gauge_size, read_append_reply, read_full_snapshot_reply, read_snapshot_reply, read_vote_reply, write_append_call,
    write_full_snapshot, write_snapshot_call, write_vote_call, CustodianNetworkFactory,
    NetworkError,
};
use infovulcan::raft::service::{
    read_append_call, read_snapshot_call, read_vote_call, write_append_reply,
    write_snapshot_reply, write_vote_reply,
};
use infovulcan::raft::types::{
    AppendEntriesRequest, AppendEntriesResponse, Entry, EntryPayload, InstallSnapshotRequest,
    LeaderId, LogId, Membership, SnapshotMeta, StoredMembership, Vote, VoteRequest, VoteResponse,
};
use infovulcan::raft::wire::{
    append_request, append_response_from_wire, classify_append_response, decode_entries,
    encode_entries, log_id, log_id_parts, snapshot_meta, vote, vote_parts, vote_request,
    VoteParts, WireError,
};
use infovulcan::status::Code;

// ---- Wire ----

#[test]
fn vote_round_trips_through_parts() {
    let parts = (7, 2, true);
    let v = vote(parts);
    assert_eq!(v.leader_id.term, 7);
    assert_eq!(v.leader_id.node_id, 2);
    assert!(v.committed);
    assert_eq!(vote_parts(&v), parts);
}

#[test]
fn log_id_round_trips_and_takes_node_id_from_vote() {
    let l = log_id((4, 11), 5);
    assert_eq!(l.leader_id.term, 4);
    assert_eq!(l.leader_id.node_id, 5);
    assert_eq!(l.index, 11);
    assert_eq!(log_id_parts(&l), (4, 11));
}

fn sample_vote() -> VoteParts {
    (7, 2, true)
}

#[test]
fn classify_success() {
    let w = classify_append_response(&AppendEntriesResponse::Success, sample_vote());
    assert_eq!(w.response_type, 0);
    assert!(w.partial_index.is_none());
    assert_eq!(w.vote, sample_vote());
}

#[test]
fn classify_partial_success_carries_index() {
    let log_id = LogId {
        leader_id: LeaderId {
            term: 4,
            node_id: 1,
        },
        index: 11,
    };
    let w = classify_append_response(
        &AppendEntriesResponse::PartialSuccess(Some(log_id)),
        sample_vote(),
    );
    assert_eq!(w.response_type, 1);
    assert_eq!(w.partial_index, Some((4, 11)));
}

#[test]
fn classify_partial_success_without_index() {
    let w = classify_append_response(&AppendEntriesResponse::PartialSuccess(None), sample_vote());
    assert_eq!(w.response_type, 1);
    assert!(w.partial_index.is_none());
}

#[test]
fn classify_conflict() {
    let w = classify_append_response(&AppendEntriesResponse::Conflict, sample_vote());
    assert_eq!(w.response_type, 2);
    assert!(w.partial_index.is_none());
}

#[test]
fn classify_higher_vote_reports_responder_vote() {
    let higher = Vote {
        leader_id: LeaderId {
            term: 99,
            node_id: 5,
        },
        committed: false,
    };
    let w = classify_append_response(&AppendEntriesResponse::HigherVote(higher), sample_vote());
    assert_eq!(w.response_type, 3);
    assert_eq!(w.vote, (99, 5, false));
}

#[test]
fn from_wire_inverts_classify_for_each_variant() {
    // Success
    assert!(matches!(
        append_response_from_wire(0, None, sample_vote()),
        Ok(AppendEntriesResponse::Success)
    ));
    // PartialSuccess with index — node_id comes from the responder vote (node_id 2).
    let Ok(AppendEntriesResponse::PartialSuccess(Some(l))) =
        append_response_from_wire(1, Some((4, 11)), sample_vote())
    else {
        panic!("expected partial success with an index");
    };
    assert_eq!((l.leader_id.term, l.leader_id.node_id, l.index), (4, 2, 11));
    // Conflict
    assert!(matches!(
        append_response_from_wire(2, None, sample_vote()),
        Ok(AppendEntriesResponse::Conflict)
    ));
    // HigherVote
    let Ok(AppendEntriesResponse::HigherVote(v)) =
        append_response_from_wire(3, None, (99, 5, false))
    else {
        panic!("expected higher vote");
    };
    assert_eq!(vote_parts(&v), (99, 5, false));
}

#[test]
fn from_wire_rejects_unknown_response_type() {
    assert!(append_response_from_wire(9, None, sample_vote()).is_err());
}

#[test]
fn wire_errors_are_put_into_words() {
    assert_eq!(
        append_response_from_wire(9, None, sample_vote())
            .unwrap_err()
            .message(),
        "unknown append_entries response_type: 9"
    );
    assert_eq!(
        WireError::EntryDecode("x".to_string()).message(),
        "invalid entry data: x"
    );
}

#[test]
fn vote_request_uses_vote_node_id_for_last_log_id() {
    let req = vote_request((3, 8, false), Some((2, 5)));
    let last = req.last_log_id.expect("last log id present");
    assert_eq!(
        (last.leader_id.term, last.leader_id.node_id, last.index),
        (2, 8, 5)
    );
}

#[test]
fn snapshot_meta_carries_version_and_node_id() {
    let meta = snapshot_meta(Some((6, 20)), 3, "snap-1".to_string(), 4);
    let last = meta.last_log_id.expect("last log id");
    // log_id((term=6, index=20), node_id=4) → (term, node_id, index)
    assert_eq!(
        (last.leader_id.term, last.leader_id.node_id, last.index),
        (6, 4, 20)
    );
    assert_eq!(meta.snapshot_id, "snap-1");
    let member = meta.last_membership.log_id.expect("membership log id");
    assert_eq!(
        (member.leader_id.term, member.leader_id.node_id, member.index),
        (6, 4, 3)
    );
    assert!(meta.last_membership.membership.configs.is_empty());
}

#[test]
fn decode_entries_rejects_garbage() {
    let result = decode_entries::<LogEntry>(&vec![b"not json".to_vec()]);
    assert!(result.is_err());
}

#[test]
fn append_request_takes_node_id_from_vote() {
    let req = append_request::<LogEntry>((1, 9, true), Some((1, 2)), vec![], Some((1, 4)));
    assert_eq!(req.prev_log_id.expect("prev").leader_id.node_id, 9);
    assert_eq!(req.leader_commit.expect("commit").leader_id.node_id, 9);
    assert!(req.entries.is_empty());
}

fn at(index: u64) -> LogId {
    LogId {
        leader_id: LeaderId {
            term: 1,
            node_id: 1,
        },
        index,
    }
}

fn put_entry(index: u64) -> Entry<LogEntry> {
    Entry {
        log_id: at(index),
        payload: EntryPayload::Normal(LogEntry::Put {
            collection: "c".to_string(),
            key: b"k".to_vec(),
            value: b"v".to_vec(),
        }),
    }
}

#[test]
fn decode_entries_round_trips_a_valid_entry() {
    let bytes = put_entry(1).encode().expect("serialize");
    let decoded = decode_entries::<LogEntry>(&vec![bytes]).expect("decode");
    assert_eq!(decoded.len(), 1);
    assert_eq!(decoded[0].log_id, at(1));
    assert!(matches!(
        &decoded[0].payload,
        EntryPayload::Normal(LogEntry::Put { collection, key, value })
            if collection == "c" && key == b"k" && value == b"v"
    ));
}

#[test]
fn every_kind_of_entry_is_read_back() {
    let membership = Membership {
        configs: vec![vec![1, 2], vec![2, 3]],
        node_ids: vec![1, 2, 3],
        addresses: vec!["a".to_string(), "".to_string(), "é".to_string()],
    };
    let entries: Vec<Entry<LockCommand>> = vec![
        Entry {
            log_id: at(1),
            payload: EntryPayload::Blank,
        },
        Entry {
            log_id: at(2),
            payload: EntryPayload::Membership(membership),
        },
        Entry {
            log_id: at(u64::MAX),
            payload: EntryPayload::Normal(LockCommand::ReleaseLock {
                ticket_id: 3,
                user_id: u128::MAX - 1,
            }),
        },
    ];
    let raw = encode_entries(&entries).expect("encode");
    let back = decode_entries::<LockCommand>(&raw).expect("decode");
    assert_eq!(back.len(), 3);
    assert!(matches!(back[0].payload, EntryPayload::Blank));
    assert!(matches!(
        &back[1].payload,
        EntryPayload::Membership(m) if m.configs == vec![vec![1, 2], vec![2, 3]]
            && m.addresses == vec!["a".to_string(), "".to_string(), "é".to_string()]
    ));
    assert_eq!(back[2].log_id.index, u64::MAX);
    assert!(matches!(
        back[2].payload,
        EntryPayload::Normal(LockCommand::ReleaseLock { ticket_id: 3, user_id })
            if user_id == u128::MAX - 1
    ));
}

// ---- Service ----

fn proto_vote(committed: bool) -> ProtoVote {
    ProtoVote {
        term: 1,
        node_id: 1,
        committed,
    }
}

#[test]
fn vote_rejects_missing_vote() {
    let err = read_vote_call(&VoteCall {
        vote: None,
        last_log_id: None,
    })
    .expect_err("missing vote must fail");
    assert_eq!(err.code, Code::InvalidArgument);
}

#[test]
fn vote_accepts_well_formed_request() {
    let req = read_vote_call(&VoteCall {
        vote: Some(proto_vote(false)),
        last_log_id: None,
    })
    .expect("vote request");
    let body = write_vote_reply(Ok(VoteResponse {
        vote: req.vote,
        vote_granted: true,
        last_log_id: Some(at(4)),
    }))
    .expect("vote reply");
    assert_eq!(body.vote, Some(proto_vote(false)));
    assert_eq!(body.last_log_id, Some(ProtoLogId { term: 1, index: 4 }));
    let err = write_vote_reply(Err("stopped".to_string())).unwrap_err();
    assert_eq!(err.code, Code::Internal);
    assert_eq!(err.message, "vote failed: stopped");
}

#[test]
fn append_entries_rejects_missing_vote() {
    let err = read_append_call::<LogEntry>(&AppendCall {
        vote: None,
        prev_log_id: None,
        entries: vec![],
        leader_commit: None,
    })
    .expect_err("missing vote must fail");
    assert_eq!(err.code, Code::InvalidArgument);
}

#[test]
fn append_entries_rejects_invalid_entry_data() {
    let err = read_append_call::<LogEntry>(&AppendCall {
        vote: Some(proto_vote(false)),
        prev_log_id: None,
        entries: vec![b"not-json".to_vec()],
        leader_commit: None,
    })
    .expect_err("invalid entry payload must fail");
    assert_eq!(err.code, Code::InvalidArgument);
}

#[test]
fn append_entries_rejects_invalid_entry_bytes() {
    let err = read_append_call::<LockCommand>(&AppendCall {
        vote: Some(proto_vote(true)),
        prev_log_id: None,
        entries: vec![b"not json".to_vec()],
        leader_commit: None,
    })
    .expect_err("invalid entry bytes");
    assert_eq!(err.code, Code::InvalidArgument);
}

#[test]
fn append_entries_handles_well_formed_entry() {
    let entry_bytes = put_entry(1).encode().expect("serialize entry");
    let req = read_append_call::<LogEntry>(&AppendCall {
        vote: Some(proto_vote(false)),
        prev_log_id: None,
        entries: vec![entry_bytes],
        leader_commit: None,
    })
    .expect("append entries should succeed");
    assert_eq!(req.entries.len(), 1);
    let body = write_append_reply(proto_vote(false), Ok(AppendEntriesResponse::Success))
        .expect("append reply");
    assert!(body.response_type <= 3);
    assert!(body.vote.is_some());
}

#[test]
fn vote_and_append_entries_handlers_respond() {
    let req = read_append_call::<LockCommand>(&AppendCall {
        vote: Some(proto_vote(true)),
        prev_log_id: None,
        entries: vec![],
        leader_commit: None,
    })
    .expect("append rpc");
    assert!(req.entries.is_empty());
    let resp = write_append_reply(
        proto_vote(true),
        Ok(AppendEntriesResponse::PartialSuccess(Some(at(3)))),
    )
    .expect("append rpc");
    assert_eq!(resp.response_type, 1);
    assert_eq!(resp.vote, Some(proto_vote(true)));
    let err = write_append_reply(proto_vote(true), Err("stopped".to_string())).unwrap_err();
    assert_eq!(err.message, "append_entries failed: stopped");
}

#[test]
fn install_snapshot_rejects_missing_vote_or_meta() {
    let meta = ProtoSnapshotMeta {
        last_log_id: None,
        last_applied: 0,
        last_membership: 0,
        snapshot_id: "snap".to_string(),
    };
    let err_vote = read_snapshot_call(SnapshotCall {
        vote: None,
        meta: Some(meta),
        offset: 0,
        data: vec![],
        done: true,
    })
    .expect_err("missing vote must fail");
    assert_eq!(err_vote.code, Code::InvalidArgument);

    let err_meta = read_snapshot_call(SnapshotCall {
        vote: Some(proto_vote(false)),
        meta: None,
        offset: 0,
        data: vec![],
        done: true,
    })
    .expect_err("missing meta must fail");
    assert_eq!(err_meta.code, Code::InvalidArgument);
}

#[test]
fn install_snapshot_accepts_well_formed_request() {
    let req = read_snapshot_call(SnapshotCall {
        vote: Some(proto_vote(false)),
        meta: Some(ProtoSnapshotMeta {
            last_log_id: None,
            last_applied: 0,
            last_membership: 1,
            snapshot_id: "snap-1".to_string(),
        }),
        offset: 0,
        data: b"snapshot-chunk".to_vec(),
        done: true,
    })
    .expect("install snapshot should succeed");
    assert_eq!(req.data, b"snapshot-chunk");
    assert_eq!(req.meta.snapshot_id, "snap-1");
    let body = write_snapshot_reply(Ok(req.vote)).expect("reply");
    assert!(body.vote.is_some());
    let err = write_snapshot_reply(Err("x".to_string())).unwrap_err();
    assert_eq!(err.message, "install_snapshot failed: x");
}

// ---- Network ----

fn ok_vote() -> Option<ProtoVote> {
    Some(proto_vote(true))
}

fn leader_vote() -> Vote {
    vote((1, 1, true))
}

fn no_meta() -> SnapshotMeta {
    SnapshotMeta {
        last_log_id: None,
        last_membership: StoredMembership::default(),
        snapshot_id: String::new(),
    }
}

#[test]
fn test_network_factory_creation() {
    let mut peers = HashMap::new();
    peers.insert(1, "http://127.0.0.1:50051".to_string());
    let factory = CustodianNetworkFactory::with_peers(peers);

    assert!(factory.get_peer_address(1).is_some());
    assert!(factory.get_peer_address(99).is_none());
}

#[test]
fn peers_are_added_and_reached() {
    let mut factory = CustodianNetworkFactory::new();
    assert!(factory.get_peer_address(1).is_none());
    factory.add_node(1, "http://a:1".to_string());
    factory.add_node(1, "http://b:2".to_string());
    let factory = factory.clone();
    assert_eq!(factory.client_address(1, "node"), "http://b:2");
    assert_eq!(factory.client_address(2, "node"), "http://node:8081");
}

#[test]
fn a_clone_does_not_see_a_later_peer() {
    let mut factory = CustodianNetworkFactory::new();
    factory.add_node(1, "http://a:1".to_string());
    let earlier = factory.clone();
    factory.add_node(1, "http://b:2".to_string());
    factory.add_node(2, "http://c:3".to_string());
    assert_eq!(earlier.get_peer_address(1).as_deref(), Some("http://a:1"));
    assert_eq!(earlier.get_peer_address(2), None);
    assert_eq!(factory.get_peer_address(1).as_deref(), Some("http://b:2"));
    assert_eq!(factory.get_peer_address(2).as_deref(), Some("http://c:3"));
}

#[test]
fn test_network_install_snapshot_multi_chunk() {
    let chunk1 = b"hello ".to_vec();
    let chunk2 = b"world!".to_vec();
    let send = |offset: u64, data: Vec<u8>, done: bool| {
        write_snapshot_call(InstallSnapshotRequest {
            vote: leader_vote(),
            meta: no_meta(),
            offset,
            data,
            done,
        })
    };
    let first = send(0, chunk1.clone(), false);
    let second = send(chunk1.len() as u64, chunk2.clone(), true);
    assert!(!first.done);
    assert!(second.done);
    assert_eq!(second.offset, 6);
    assert_eq!([first.data, second.data].concat(), [chunk1, chunk2].concat());
    assert!(read_snapshot_reply(&SnapshotReply { vote: ok_vote() }).is_ok());
}

#[test]
fn test_network_vote_and_append() {
    let call = write_vote_call(&VoteRequest {
        vote: leader_vote(),
        last_log_id: None,
    });
    assert_eq!(call.vote, ok_vote());
    let res = read_vote_reply(&VoteReply {
        vote: ok_vote(),
        vote_granted: true,
        last_log_id: None,
    });
    assert!(res.expect("vote").vote_granted);

    let call = write_append_call::<LockCommand>(&AppendEntriesRequest {
        vote: leader_vote(),
        prev_log_id: Some(at(2)),
        entries: vec![],
        leader_commit: None,
    })
    .expect("append call");
    assert_eq!(call.prev_log_id, Some(ProtoLogId { term: 1, index: 2 }));
    let res = read_append_reply(&AppendReply {
        vote: ok_vote(),
        response_type: 0,
        partial_success_index: None,
    });
    assert!(matches!(res, Ok(AppendEntriesResponse::Success)));
}

#[test]
fn test_append_entries_decodes_all_response_variants() {
    let answer = |rt: u32| {
        read_append_reply(&AppendReply {
            vote: ok_vote(),
            response_type: rt,
            partial_success_index: if rt == 1 {
                Some(ProtoLogId { term: 1, index: 7 })
            } else {
                None
            },
        })
    };
    assert!(matches!(
        answer(1),
        Ok(AppendEntriesResponse::PartialSuccess(Some(l))) if l.index == 7
    ));
    assert!(matches!(answer(2), Ok(AppendEntriesResponse::Conflict)));
    assert!(matches!(answer(3), Ok(AppendEntriesResponse::HigherVote(_))));
    let err = answer(99).unwrap_err();
    assert!(matches!(err, NetworkError::UnknownResponseType(99)));
    assert_eq!(err.message(), "unknown append_entries response_type: 99");
}

#[test]
fn vote_append_install_error_on_missing_vote() {
    let err = read_vote_reply(&VoteReply {
        vote: None,
        vote_granted: true,
        last_log_id: None,
    })
    .unwrap_err();
    assert!(matches!(err, NetworkError::MissingVote));
    assert_eq!(err.message(), "missing vote");
    assert!(read_append_reply(&AppendReply {
        vote: None,
        response_type: 0,
        partial_success_index: None,
    })
    .is_err());
    assert!(read_snapshot_reply(&SnapshotReply { vote: None }).is_err());
}

#[test]
fn full_snapshot_succeeds_against_a_live_peer() {
    let call = write_full_snapshot(
        &vote((2, 1, true)),
        no_meta(),
        b"snapshot bytes".to_vec(),
    );
    assert!(call.done);
    assert_eq!(call.offset, 0);
    assert_eq!(call.data, b"snapshot bytes");
    assert!(read_full_snapshot_reply(&SnapshotReply { vote: ok_vote() }).is_ok());
}

#[test]
fn full_snapshot_errors_on_missing_vote() {
    let err = read_full_snapshot_reply(&SnapshotReply { vote: None }).unwrap_err();
    assert!(matches!(err, NetworkError::MissingSnapshotVote));
    assert_eq!(err.message(), "missing vote in snapshot response");
}

#[test]
fn what_one_node_sends_another_reads() {
    let request = AppendEntriesRequest {
        vote: leader_vote(),
        prev_log_id: Some(at(4)),
        entries: vec![put_entry(5), put_entry(6)],
        leader_commit: Some(at(3)),
    };
    let call = write_append_call(&request).expect("call");
    let read = read_append_call::<LogEntry>(&call).expect("read");
    assert_eq!(read.vote, request.vote);
    assert_eq!(read.prev_log_id, request.prev_log_id);
    assert_eq!(read.leader_commit, request.leader_commit);
    assert_eq!(read.entries.len(), 2);
    assert_eq!(read.entries[1].log_id, at(6));
    assert_eq!(gauge_size(7), 7);
}
