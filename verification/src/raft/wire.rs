//! The wire protocol of the Raft service.
//!
//! Two quirks of the protocol are kept exactly:
//!   1. a log id on the wire carries only `(term, index)`; its node is that of the vote beside it;
//!   2. an append outcome is `0` = success, `1` = partial success, `2` = conflict, `3` = higher
//!      vote, and echoes the leader's vote except for a higher vote, which carries the responder's.

use vstd::prelude::*;
use vstd::string::*;

use crate::raft::codec::{entry_bytes, entry_in, Command};
use crate::raft::types::{
    entries_of, no_members, AppendEntriesRequest, AppendEntriesResponse, Entry, EntryView, LeaderId,
    LogId, Membership, SnapshotMeta, StoredMembership, StoredMembershipView, Vote, VoteRequest,
};
use crate::text::{dec, decimal};

verus! {

/// Errors from reading the wire protocol.
#[derive(Debug)]
pub enum WireError {
    /// The response type of an append outcome is none of the four.
    UnknownResponseType(u32),
    /// The bytes of an entry cannot be read.
    EntryDecode(String),
}

impl WireError {
    /// What went wrong, in words.
    pub fn message(&self) -> (out: String)
        ensures
            out@ == (match *self {
                WireError::UnknownResponseType(n) => "unknown append_entries response_type: "@
                    + dec(n as nat),
                WireError::EntryDecode(text) => "invalid entry data: "@ + text@,
            }),
    {
        match self {
            WireError::UnknownResponseType(n) => {
                let mut out: String = "unknown append_entries response_type: ".to_owned();
                out.append(decimal(*n as u64).as_str());
                out
            },
            WireError::EntryDecode(text) => {
                let mut out: String = "invalid entry data: ".to_owned();
                out.append(text.as_str());
                out
            },
        }
    }
}

/// Wire parts of a vote: `(term, node_id, committed)`.
pub type VoteParts = (u64, u64, bool);

/// Wire parts of a log id: `(term, index)`.
pub type LogIdParts = (u64, u64);

/// The vote with the given parts.
pub open spec fn vote_of(parts: VoteParts) -> Vote {
    Vote { leader_id: LeaderId { term: parts.0, node_id: parts.1 }, committed: parts.2 }
}

/// The parts of a vote.
pub open spec fn parts_of_vote(v: Vote) -> VoteParts {
    (v.leader_id.term, v.leader_id.node_id, v.committed)
}

/// The log id with the given parts, on the given node.
pub open spec fn log_id_of(parts: LogIdParts, node_id: u64) -> LogId {
    LogId { leader_id: LeaderId { term: parts.0, node_id }, index: parts.1 }
}

/// The parts of a log id.
pub open spec fn parts_of_log_id(l: LogId) -> LogIdParts {
    (l.leader_id.term, l.index)
}

/// The log id with the given parts, if there are any.
pub open spec fn opt_log_id_of(parts: Option<LogIdParts>, node_id: u64) -> Option<LogId> {
    match parts {
        Some(p) => Some(log_id_of(p, node_id)),
        None => None,
    }
}

/// The parts of a log id, if there is one.
pub open spec fn parts_of_opt_log_id(l: Option<LogId>) -> Option<LogIdParts> {
    match l {
        Some(id) => Some(parts_of_log_id(id)),
        None => None,
    }
}

/// Builds a vote from its wire parts.
pub fn vote(parts: VoteParts) -> (out: Vote)
    ensures
        out == vote_of(parts),
{
    Vote { leader_id: LeaderId { term: parts.0, node_id: parts.1 }, committed: parts.2 }
}

/// The wire parts of a vote.
pub fn vote_parts(v: &Vote) -> (out: VoteParts)
    ensures
        out == parts_of_vote(*v),
{
    (v.leader_id.term, v.leader_id.node_id, v.committed)
}

/// Builds a log id from its wire parts and the node of the vote beside it.
pub fn log_id(parts: LogIdParts, node_id: u64) -> (out: LogId)
    ensures
        out == log_id_of(parts, node_id),
{
    LogId { leader_id: LeaderId { term: parts.0, node_id }, index: parts.1 }
}

/// The wire parts of a log id.
pub fn log_id_parts(l: &LogId) -> (out: LogIdParts)
    ensures
        out == parts_of_log_id(*l),
{
    (l.leader_id.term, l.index)
}

/// Builds a log id from its wire parts, if there are any.
pub fn opt_log_id(parts: Option<LogIdParts>, node_id: u64) -> (out: Option<LogId>)
    ensures
        out == opt_log_id_of(parts, node_id),
{
    match parts {
        Some(p) => Some(log_id(p, node_id)),
        None => None,
    }
}

/// The wire parts of a log id, if there is one.
pub fn opt_log_id_parts(l: &Option<LogId>) -> (out: Option<LogIdParts>)
    ensures
        out == parts_of_opt_log_id(*l),
{
    match l {
        Some(id) => Some(log_id_parts(id)),
        None => None,
    }
}

/// A classified append outcome, ready for the wire.
#[derive(Debug, Clone, Copy, PartialEq, Eq)]
pub struct AppendWire {
    /// `0` = success, `1` = partial success, `2` = conflict, `3` = higher vote.
    pub response_type: u32,
    /// For a partial success: the `(term, index)` of the last entry taken, if any.
    pub partial_index: Option<LogIdParts>,
    /// The vote to send back.
    pub vote: VoteParts,
}

/// An append outcome on the wire.
pub open spec fn classified(resp: AppendEntriesResponse, echoed_vote: VoteParts) -> AppendWire {
    match resp {
        AppendEntriesResponse::Success => AppendWire {
            response_type: 0,
            partial_index: None,
            vote: echoed_vote,
        },
        AppendEntriesResponse::PartialSuccess(matching) => AppendWire {
            response_type: 1,
            partial_index: parts_of_opt_log_id(matching),
            vote: echoed_vote,
        },
        AppendEntriesResponse::Conflict => AppendWire {
            response_type: 2,
            partial_index: None,
            vote: echoed_vote,
        },
        AppendEntriesResponse::HigherVote(higher) => AppendWire {
            response_type: 3,
            partial_index: None,
            vote: parts_of_vote(higher),
        },
    }
}

/// An append outcome read from the wire.
pub open spec fn rebuilt(
    response_type: u32,
    partial_index: Option<LogIdParts>,
    responder_vote: VoteParts,
) -> Option<AppendEntriesResponse> {
    if response_type == 0 {
        Some(AppendEntriesResponse::Success)
    } else if response_type == 1 {
        Some(AppendEntriesResponse::PartialSuccess(opt_log_id_of(partial_index, responder_vote.1)))
    } else if response_type == 2 {
        Some(AppendEntriesResponse::Conflict)
    } else if response_type == 3 {
        Some(AppendEntriesResponse::HigherVote(vote_of(responder_vote)))
    } else {
        None
    }
}

/// Classifies an append outcome for the wire.
pub fn classify_append_response(resp: &AppendEntriesResponse, echoed_vote: VoteParts) -> (out:
    AppendWire)
    ensures
        out == classified(*resp, echoed_vote),
{
    match resp {
        AppendEntriesResponse::Success => AppendWire {
            response_type: 0,
            partial_index: None,
            vote: echoed_vote,
        },
        AppendEntriesResponse::PartialSuccess(matching) => AppendWire {
            response_type: 1,
            partial_index: opt_log_id_parts(matching),
            vote: echoed_vote,
        },
        AppendEntriesResponse::Conflict => AppendWire {
            response_type: 2,
            partial_index: None,
            vote: echoed_vote,
        },
        AppendEntriesResponse::HigherVote(higher) => AppendWire {
            response_type: 3,
            partial_index: None,
            vote: vote_parts(higher),
        },
    }
}

/// Reads an append outcome from the wire.
pub fn append_response_from_wire(
    response_type: u32,
    partial_index: Option<LogIdParts>,
    responder_vote: VoteParts,
) -> (out: Result<AppendEntriesResponse, WireError>)
    ensures
        match out {
            Ok(resp) => rebuilt(response_type, partial_index, responder_vote) == Some(resp),
            Err(WireError::UnknownResponseType(n)) => n == response_type && rebuilt(
                response_type,
                partial_index,
                responder_vote,
            ) is None,
            Err(_) => false,
        },
{
    match response_type {
        0 => Ok(AppendEntriesResponse::Success),
        1 => Ok(AppendEntriesResponse::PartialSuccess(opt_log_id(partial_index, responder_vote.1))),
        2 => Ok(AppendEntriesResponse::Conflict),
        3 => Ok(AppendEntriesResponse::HigherVote(vote(responder_vote))),
        other => Err(WireError::UnknownResponseType(other)),
    }
}

/// The parts of a vote give the vote back, and the other way round.
pub proof fn vote_round_trip(parts: VoteParts, v: Vote)
    ensures
        parts_of_vote(vote_of(parts)) == parts,
        vote_of(parts_of_vote(v)) == v,
{
}

/// The parts of a log id give it back where it is on the vote's node.
pub proof fn log_id_round_trip(parts: LogIdParts, node_id: u64, l: LogId)
    ensures
        parts_of_log_id(log_id_of(parts, node_id)) == parts,
        l.leader_id.node_id == node_id ==> log_id_of(parts_of_log_id(l), node_id) == l,
{
}

/// Reading what was classified gives the outcome back. The one thing that the wire does not carry
/// is the node of a partial success: it comes back as that of the echoed vote.
pub proof fn rebuilding_inverts_classifying(resp: AppendEntriesResponse, echoed_vote: VoteParts)
    ensures
        ({
            let w = classified(resp, echoed_vote);
            let back = rebuilt(w.response_type, w.partial_index, w.vote);
            match resp {
                AppendEntriesResponse::PartialSuccess(Some(l)) => back == Some(
                    AppendEntriesResponse::PartialSuccess(
                        Some(log_id_of(parts_of_log_id(l), echoed_vote.1)),
                    ),
                ),
                _ => back == Some(resp),
            }
        }),
{
}

/// Builds a request for a vote from its wire parts.
pub fn vote_request(v: VoteParts, last_log_id: Option<LogIdParts>) -> (out: VoteRequest)
    ensures
        out == (VoteRequest { vote: vote_of(v), last_log_id: opt_log_id_of(last_log_id, v.1) }),
{
    VoteRequest { vote: vote(v), last_log_id: opt_log_id(last_log_id, v.1) }
}

/// Builds an append request from its wire parts and the entries.
pub fn append_request<D>(
    v: VoteParts,
    prev_log_id: Option<LogIdParts>,
    entries: Vec<Entry<D>>,
    leader_commit: Option<LogIdParts>,
) -> (out: AppendEntriesRequest<D>)
    ensures
        out == (AppendEntriesRequest {
            vote: vote_of(v),
            prev_log_id: opt_log_id_of(prev_log_id, v.1),
            entries,
            leader_commit: opt_log_id_of(leader_commit, v.1),
        }),
{
    AppendEntriesRequest {
        vote: vote(v),
        prev_log_id: opt_log_id(prev_log_id, v.1),
        entries,
        leader_commit: opt_log_id(leader_commit, v.1),
    }
}

/// The membership of a snapshot from the wire, which carries a version and no members: the version
/// is the index of the entry that brought the membership.
pub open spec fn wire_membership(
    last_log_id: Option<LogIdParts>,
    last_membership: u32,
    node_id: u64,
) -> StoredMembershipView {
    StoredMembershipView {
        log_id: Some(
            log_id_of(
                (
                    match last_log_id {
                        Some(parts) => parts.0,
                        None => 0,
                    },
                    last_membership as u64,
                ),
                node_id,
            ),
        ),
        membership: no_members(),
    }
}

/// Builds what a snapshot covers from its wire parts.
pub fn snapshot_meta(
    last_log_id: Option<LogIdParts>,
    last_membership: u32,
    snapshot_id: String,
    node_id: u64,
) -> (out: SnapshotMeta)
    ensures
        out.last_log_id == opt_log_id_of(last_log_id, node_id),
        out.last_membership@ == wire_membership(last_log_id, last_membership, node_id),
        out.snapshot_id == snapshot_id,
{
    let term: u64 = match last_log_id {
        Some(parts) => parts.0,
        None => 0,
    };
    SnapshotMeta {
        last_log_id: opt_log_id(last_log_id, node_id),
        last_membership: StoredMembership {
            log_id: Some(log_id((term, last_membership as u64), node_id)),
            membership: Membership::empty(),
        },
        snapshot_id,
    }
}

/// The entries that a list of byte strings holds; `None` where one of them holds none.
pub open spec fn entries_in<D: Command>(raw: Seq<Seq<u8>>) -> Option<Seq<EntryView<D::V>>>
    decreases raw.len(),
{
    if raw.len() == 0 {
        Some(Seq::empty())
    } else {
        match (entries_in::<D>(raw.drop_last()), entry_in::<D>(raw.last())) {
            (Some(entries), Some(entry)) => Some(entries.push(entry)),
            _ => None,
        }
    }
}

/// One byte string without an entry spoils the list.
proof fn bad_entry_spoils<D: Command>(raw: Seq<Seq<u8>>, n: int)
    requires
        0 <= n <= raw.len(),
        entries_in::<D>(raw.take(n)) is None,
    ensures
        entries_in::<D>(raw) is None,
    decreases raw.len(),
{
    if n == raw.len() {
        assert(raw.take(n) =~= raw);
    } else {
        assert(raw.drop_last().take(n) =~= raw.take(n));
        bad_entry_spoils::<D>(raw.drop_last(), n);
    }
}

/// Reads a list of entries, each from its bytes.
pub fn decode_entries<D: Command>(raw: &Vec<Vec<u8>>) -> (out: Result<Vec<Entry<D>>, WireError>)
    ensures
        match out {
            Ok(entries) => entries_in::<D>(crate::record::blobs_of(raw@)) == Some(
                entries_of(entries@),
            ),
            Err(WireError::EntryDecode(_)) => entries_in::<D>(crate::record::blobs_of(raw@)) is None,
            Err(_) => false,
        },
{
    let mut out: Vec<Entry<D>> = Vec::new();
    let ghost all = crate::record::blobs_of(raw@);
    let mut i: usize = 0;
    assert(entries_of(out@) =~= Seq::empty());
    assert(all.take(0) =~= Seq::empty());
    while i < raw.len()
        invariant
            i <= raw@.len(),
            all == crate::record::blobs_of(raw@),
            entries_in::<D>(all.take(i as int)) == Some(entries_of(out@)),
        decreases raw@.len() - i,
    {
        assert(all.take(i + 1).drop_last() =~= all.take(i as int));
        let ghost before = entries_of(out@);
        match Entry::decode(raw[i].as_slice()) {
            Ok(entry) => {
                let ghost seen = entry@;
                out.push(entry);
                assert(entries_of(out@) =~= before.push(seen));
            },
            Err(text) => {
                proof {
                    bad_entry_spoils::<D>(all, i + 1);
                }
                return Err(WireError::EntryDecode(text));
            },
        }
        i = i + 1;
    }
    assert(all.take(i as int) =~= all);
    Ok(out)
}

/// Writes a list of entries, each as its bytes.
pub fn encode_entries<D: Command>(entries: &Vec<Entry<D>>) -> (out: Result<Vec<Vec<u8>>, String>)
    ensures
        out matches Ok(raw) && raw@.len() == entries@.len() && (forall|i: int|
            0 <= i < entries@.len() ==> (#[trigger] raw@[i])@ == entry_bytes::<D>(entries@[i]@))
            && entries_in::<D>(crate::record::blobs_of(raw@)) == Some(entries_of(entries@)),
{
    let mut out: Vec<Vec<u8>> = Vec::new();
    let mut i: usize = 0;
    let ghost all = entries_of(entries@);
    assert(all.take(0) =~= Seq::empty());
    assert(crate::record::blobs_of(out@) =~= Seq::empty());
    while i < entries.len()
        invariant
            i <= entries@.len(),
            out@.len() == i,
            all == entries_of(entries@),
            forall|j: int| 0 <= j < i ==> (#[trigger] out@[j])@ == entry_bytes::<D>(entries@[j]@),
            entries_in::<D>(crate::record::blobs_of(out@)) == Some(all.take(i as int)),
        decreases entries@.len() - i,
    {
        let ghost before = crate::record::blobs_of(out@);
        match entries[i].encode() {
            Ok(bytes) => {
                let ghost seen = bytes@;
                out.push(bytes);
                proof {
                    let after = crate::record::blobs_of(out@);
                    assert(after =~= before.push(seen));
                    assert(after.drop_last() =~= before);
                    assert(all.take(i + 1) =~= all.take(i as int).push(all[i as int]));
                }
            },
            Err(text) => {
                return Err(text);
            },
        }
        i = i + 1;
    }
    assert(all.take(i as int) =~= all);
    Ok(out)
}

} // verus!
