//! The messages of the Raft service.

use vstd::prelude::*;

verus! {

/// A vote on the wire.
#[derive(Debug, Clone, Copy, PartialEq, Eq, Structural)]
pub struct ProtoVote {
    pub term: u64,
    pub node_id: u64,
    pub committed: bool,
}

/// A log id on the wire.
#[derive(Debug, Clone, Copy, PartialEq, Eq, Structural)]
pub struct ProtoLogId {
    pub term: u64,
    pub index: u64,
}

/// A request for a vote.
#[derive(Debug, Clone, Copy, PartialEq, Eq, Structural)]
pub struct VoteCall {
    pub vote: Option<ProtoVote>,
    pub last_log_id: Option<ProtoLogId>,
}

/// The answer to a request for a vote.
#[derive(Debug, Clone, Copy, PartialEq, Eq, Structural)]
pub struct VoteReply {
    pub vote: Option<ProtoVote>,
    pub vote_granted: bool,
    pub last_log_id: Option<ProtoLogId>,
}

/// A request to append entries, each as its bytes.
#[derive(Debug, Clone)]
pub struct AppendCall {
    pub vote: Option<ProtoVote>,
    pub prev_log_id: Option<ProtoLogId>,
    pub entries: Vec<Vec<u8>>,
    pub leader_commit: Option<ProtoLogId>,
}

/// The answer to a request to append entries.
#[derive(Debug, Clone, Copy, PartialEq, Eq, Structural)]
pub struct AppendReply {
    pub vote: Option<ProtoVote>,
    pub response_type: u32,
    pub partial_success_index: Option<ProtoLogId>,
}

/// What a snapshot covers, on the wire.
#[derive(Debug, Clone)]
pub struct ProtoSnapshotMeta {
    pub last_log_id: Option<ProtoLogId>,
    pub last_applied: u64,
    pub last_membership: u32,
    pub snapshot_id: String,
}

/// A request to install a chunk of a snapshot.
#[derive(Debug, Clone)]
pub struct SnapshotCall {
    pub vote: Option<ProtoVote>,
    pub meta: Option<ProtoSnapshotMeta>,
    pub offset: u64,
    pub data: Vec<u8>,
    pub done: bool,
}

/// The answer to a request to install a snapshot.
#[derive(Debug, Clone, Copy, PartialEq, Eq, Structural)]
pub struct SnapshotReply {
    pub vote: Option<ProtoVote>,
}

} // verus!
