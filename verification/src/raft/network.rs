//! The asking end of the Raft service: requests are written into messages, sent to a peer, and
//! its replies are read back.

use std::collections::HashMap;

use vstd::prelude::*;
use vstd::string::*;

use crate::raft::codec::{entry_bytes, Command};
use crate::raft::messages::{
    AppendCall, AppendReply, ProtoLogId, ProtoSnapshotMeta, ProtoVote, SnapshotCall, SnapshotReply,
    VoteCall, VoteReply,
};
use crate::raft::service::{
    from_proto_log_id, proto_log_id_of, proto_log_id_parts, proto_vote_of, proto_vote_parts,
    to_opt_proto_log_id, to_proto_vote,
};
use crate::raft::types::{
    entries_of, AppendEntriesRequest, AppendEntriesResponse, InstallSnapshotRequest, LogId,
    SnapshotMeta, Vote, VoteRequest, VoteResponse,
};
use crate::raft::wire::{
    append_response_from_wire, encode_entries, entries_in, log_id_of, opt_log_id, opt_log_id_of,
    opt_log_id_parts, parts_of_log_id, parts_of_opt_log_id, parts_of_vote, rebuilt, vote, vote_of,
    vote_parts,
};
use crate::record::blobs_of;
use crate::text::dec;

verus! {

/// Why a peer's reply cannot be used.
#[derive(Debug)]
pub enum NetworkError {
    /// The reply lacks the vote.
    MissingVote,
    /// The reply to a whole snapshot lacks the vote.
    MissingSnapshotVote,
    /// The reply names an outcome that does not exist.
    UnknownResponseType(u32),
    /// An entry cannot be written.
    EntryEncode(String),
}

impl NetworkError {
    /// What went wrong, in words.
    pub fn message(&self) -> (out: String)
        ensures
            out@ == (match *self {
                NetworkError::MissingVote => "missing vote"@,
                NetworkError::MissingSnapshotVote => "missing vote in snapshot response"@,
                NetworkError::UnknownResponseType(n) => "unknown append_entries response_type: "@
                    + dec(n as nat),
                NetworkError::EntryEncode(text) => text@,
            }),
    {
        match self {
            NetworkError::MissingVote => "missing vote".to_owned(),
            NetworkError::MissingSnapshotVote => "missing vote in snapshot response".to_owned(),
            NetworkError::UnknownResponseType(n) => {
                let mut out: String = "unknown append_entries response_type: ".to_owned();
                out.append(crate::text::decimal(*n as u64).as_str());
                out
            },
            NetworkError::EntryEncode(text) => text.clone(),
        }
    }
}

/// Knows the addresses of the peers.
pub struct CustodianNetworkFactory {
    peers: HashMap<u64, String>,
}

impl View for CustodianNetworkFactory {
    type V = Map<u64, String>;

    closed spec fn view(&self) -> Map<u64, String> {
        self.peers@
    }
}

/// The address of a node: the one that is known, or its own name on the service's port.
pub open spec fn address_of(peers: Map<u64, String>, target: u64, node_addr: Seq<char>) -> Seq<char> {
    if peers.contains_key(target) {
        peers[target]@
    } else {
        "http://"@ + node_addr + ":8081"@
    }
}

impl CustodianNetworkFactory {
    /// Knows no peers.
    pub fn new() -> (out: Self)
        ensures
            out@ == Map::<u64, String>::empty(),
    {
        CustodianNetworkFactory { peers: HashMap::new() }
    }

    /// Knows the given peers.
    pub fn with_peers(peers: HashMap<u64, String>) -> (out: Self)
        ensures
            out@ == peers@,
    {
        CustodianNetworkFactory { peers }
    }

    /// Adds a peer, or gives one it knows a new address.
    pub fn add_node(&mut self, node_id: u64, address: String)
        ensures
            final(self)@ == old(self)@.insert(node_id, address),
    {
        broadcast use vstd::std_specs::hash::group_hash_axioms;

        self.peers.insert(node_id, address);
    }

    /// The address of a peer.
    pub fn get_peer_address(&self, node_id: u64) -> (out: Option<String>)
        ensures
            match out {
                Some(address) => self@.contains_pair(node_id, address),
                None => !self@.contains_key(node_id),
            },
    {
        broadcast use vstd::std_specs::hash::group_hash_axioms;

        match self.peers.get(&node_id) {
            Some(address) => Some(address.clone()),
            None => None,
        }
    }

    /// The address to reach `target` at, whose own name is `node_addr`.
    pub fn client_address(&self, target: u64, node_addr: &str) -> (out: String)
        ensures
            out@ == address_of(self@, target, node_addr@),
    {
        match self.get_peer_address(target) {
            Some(address) => address,
            None => {
                let mut out: String = "http://".to_owned();
                out.append(node_addr);
                out.append(":8081");
                out
            },
        }
    }
}

impl Clone for CustodianNetworkFactory {
    /// Knows the same peers, on its own: what is added to one is not added to the other.
    fn clone(&self) -> (out: Self)
        ensures
            out@ == self@,
    {
        CustodianNetworkFactory { peers: self.peers.clone() }
    }
}

/// Adding a peer to a factory that knows `peers` gives that peer's address and leaves the others',
/// and a clone that was taken before still knows what it knew.
pub proof fn adding_a_peer_changes_only_it(
    peers: Map<u64, String>,
    cloned: Map<u64, String>,
    node_id: u64,
    address: String,
)
    requires
        cloned == peers,
    ensures
        peers.insert(node_id, address).contains_pair(node_id, address),
        forall|k: u64|
            k != node_id ==> (#[trigger] peers.insert(node_id, address).contains_key(k)
                == peers.contains_key(k)) && (peers.contains_key(k) ==> peers.insert(
                node_id,
                address,
            )[k] == peers[k]),
        forall|k: u64, node_addr: Seq<char>|
            k != node_id ==> #[trigger] address_of(peers.insert(node_id, address), k, node_addr)
                == address_of(peers, k, node_addr),
        forall|k: u64, node_addr: Seq<char>| #[trigger]
            address_of(cloned, k, node_addr) == address_of(peers, k, node_addr),
{
}

impl Default for CustodianNetworkFactory {
    fn default() -> (out: Self)
        ensures
            out@ == Map::<u64, String>::empty(),
    {
        CustodianNetworkFactory::new()
    }
}

/// A vote as its wire message.
pub open spec fn sent_vote(v: Vote) -> Option<ProtoVote> {
    Some(proto_vote_of(parts_of_vote(v)))
}

/// A log id as its wire message.
pub open spec fn sent_log_id(l: Option<LogId>) -> Option<ProtoLogId> {
    proto_log_id_of(parts_of_opt_log_id(l))
}

fn send_vote(v: &Vote) -> (out: Option<ProtoVote>)
    ensures
        out == sent_vote(*v),
{
    Some(to_proto_vote(vote_parts(v)))
}

fn send_log_id(l: &Option<LogId>) -> (out: Option<ProtoLogId>)
    ensures
        out == sent_log_id(*l),
{
    to_opt_proto_log_id(opt_log_id_parts(l))
}

/// Writes a request for a vote.
pub fn write_vote_call(rpc: &VoteRequest) -> (out: VoteCall)
    ensures
        out == (VoteCall { vote: sent_vote(rpc.vote), last_log_id: sent_log_id(rpc.last_log_id) }),
{
    VoteCall { vote: send_vote(&rpc.vote), last_log_id: send_log_id(&rpc.last_log_id) }
}

/// Reads a peer's answer to a request for a vote.
pub fn read_vote_reply(reply: &VoteReply) -> (out: Result<VoteResponse, NetworkError>)
    ensures
        match reply.vote {
            Some(v) => out == Ok::<VoteResponse, NetworkError>(
                VoteResponse {
                    vote: vote_of(proto_vote_parts(v)),
                    vote_granted: reply.vote_granted,
                    last_log_id: opt_log_id_of(proto_log_id_parts(reply.last_log_id), v.node_id),
                },
            ),
            None => out == Err::<VoteResponse, NetworkError>(NetworkError::MissingVote),
        },
{
    match reply.vote {
        Some(v) => Ok(
            VoteResponse {
                vote: vote((v.term, v.node_id, v.committed)),
                vote_granted: reply.vote_granted,
                last_log_id: opt_log_id(from_proto_log_id(reply.last_log_id), v.node_id),
            },
        ),
        None => Err(NetworkError::MissingVote),
    }
}

/// Writes a request to append entries, each as its bytes: nothing of an entry is lost.
pub fn write_append_call<D: Command>(rpc: &AppendEntriesRequest<D>) -> (out: Result<
    AppendCall,
    NetworkError,
>)
    ensures
        out matches Ok(call) && {
            &&& call.vote == sent_vote(rpc.vote)
            &&& call.prev_log_id == sent_log_id(rpc.prev_log_id)
            &&& call.leader_commit == sent_log_id(rpc.leader_commit)
            &&& call.entries@.len() == rpc.entries@.len()
            &&& forall|i: int|
                0 <= i < rpc.entries@.len() ==> (#[trigger] call.entries@[i])@ == entry_bytes::<D>(
                    rpc.entries@[i]@,
                )
            &&& entries_in::<D>(blobs_of(call.entries@)) == Some(entries_of(rpc.entries@))
        },
{
    match encode_entries(&rpc.entries) {
        Ok(entries) => Ok(
            AppendCall {
                vote: send_vote(&rpc.vote),
                prev_log_id: send_log_id(&rpc.prev_log_id),
                entries,
                leader_commit: send_log_id(&rpc.leader_commit),
            },
        ),
        Err(text) => Err(NetworkError::EntryEncode(text)),
    }
}

/// Reads a peer's answer to a request to append entries.
pub fn read_append_reply(reply: &AppendReply) -> (out: Result<AppendEntriesResponse, NetworkError>)
    ensures
        match reply.vote {
            None => out == Err::<AppendEntriesResponse, NetworkError>(NetworkError::MissingVote),
            Some(v) => match rebuilt(
                reply.response_type,
                proto_log_id_parts(reply.partial_success_index),
                proto_vote_parts(v),
            ) {
                Some(resp) => out == Ok::<AppendEntriesResponse, NetworkError>(resp),
                None => out == Err::<AppendEntriesResponse, NetworkError>(
                    NetworkError::UnknownResponseType(reply.response_type),
                ),
            },
        },
{
    match reply.vote {
        None => Err(NetworkError::MissingVote),
        Some(v) => match append_response_from_wire(
            reply.response_type,
            from_proto_log_id(reply.partial_success_index),
            (v.term, v.node_id, v.committed),
        ) {
            Ok(resp) => Ok(resp),
            Err(_) => Err(NetworkError::UnknownResponseType(reply.response_type)),
        },
    }
}

/// The index of a log id, or zero.
pub open spec fn index_or_zero(l: Option<LogId>) -> u64 {
    match l {
        Some(id) => id.index,
        None => 0,
    }
}

/// The version of a membership on the wire: the index of the entry that brought it, as far as the
/// wire can carry it.
pub open spec fn membership_version(l: Option<LogId>) -> u32 {
    if index_or_zero(l) <= u32::MAX {
        index_or_zero(l) as u32
    } else {
        u32::MAX
    }
}

fn write_snapshot_meta(meta: SnapshotMeta) -> (out: ProtoSnapshotMeta)
    ensures
        out == (ProtoSnapshotMeta {
            last_log_id: sent_log_id(meta.last_log_id),
            last_applied: index_or_zero(meta.last_log_id),
            last_membership: membership_version(meta.last_membership.log_id),
            snapshot_id: meta.snapshot_id,
        }),
{
    let last_applied: u64 = match meta.last_log_id {
        Some(id) => id.index,
        None => 0,
    };
    let version: u64 = match meta.last_membership.log_id {
        Some(id) => id.index,
        None => 0,
    };
    ProtoSnapshotMeta {
        last_log_id: send_log_id(&meta.last_log_id),
        last_applied,
        last_membership: if version <= 0xffff_ffff {
            version as u32
        } else {
            u32::MAX
        },
        snapshot_id: meta.snapshot_id,
    }
}

/// Writes a request to install a chunk of a snapshot.
pub fn write_snapshot_call(rpc: InstallSnapshotRequest) -> (out: SnapshotCall)
    ensures
        out == (SnapshotCall {
            vote: sent_vote(rpc.vote),
            meta: Some(
                ProtoSnapshotMeta {
                    last_log_id: sent_log_id(rpc.meta.last_log_id),
                    last_applied: index_or_zero(rpc.meta.last_log_id),
                    last_membership: membership_version(rpc.meta.last_membership.log_id),
                    snapshot_id: rpc.meta.snapshot_id,
                },
            ),
            offset: rpc.offset,
            data: rpc.data,
            done: rpc.done,
        }),
{
    SnapshotCall {
        vote: send_vote(&rpc.vote),
        meta: Some(write_snapshot_meta(rpc.meta)),
        offset: rpc.offset,
        data: rpc.data,
        done: rpc.done,
    }
}

/// Writes a request to install a whole snapshot at once.
pub fn write_full_snapshot(v: &Vote, meta: SnapshotMeta, data: Vec<u8>) -> (out: SnapshotCall)
    ensures
        out == (SnapshotCall {
            vote: sent_vote(*v),
            meta: Some(
                ProtoSnapshotMeta {
                    last_log_id: sent_log_id(meta.last_log_id),
                    last_applied: index_or_zero(meta.last_log_id),
                    last_membership: membership_version(meta.last_membership.log_id),
                    snapshot_id: meta.snapshot_id,
                },
            ),
            offset: 0,
            data,
            done: true,
        }),
{
    SnapshotCall {
        vote: send_vote(v),
        meta: Some(write_snapshot_meta(meta)),
        offset: 0,
        data,
        done: true,
    }
}

/// Reads a peer's answer to a request to install a snapshot.
pub fn read_snapshot_reply(reply: &SnapshotReply) -> (out: Result<Vote, NetworkError>)
    ensures
        match reply.vote {
            Some(v) => out == Ok::<Vote, NetworkError>(vote_of(proto_vote_parts(v))),
            None => out == Err::<Vote, NetworkError>(NetworkError::MissingVote),
        },
{
    match reply.vote {
        Some(v) => Ok(vote((v.term, v.node_id, v.committed))),
        None => Err(NetworkError::MissingVote),
    }
}

/// Reads a peer's answer to a request to install a whole snapshot.
pub fn read_full_snapshot_reply(reply: &SnapshotReply) -> (out: Result<Vote, NetworkError>)
    ensures
        match reply.vote {
            Some(v) => out == Ok::<Vote, NetworkError>(vote_of(proto_vote_parts(v))),
            None => out == Err::<Vote, NetworkError>(NetworkError::MissingSnapshotVote),
        },
{
    match reply.vote {
        Some(v) => Ok(vote((v.term, v.node_id, v.committed))),
        None => Err(NetworkError::MissingSnapshotVote),
    }
}

/// The size of a snapshot as a gauge shows it.
pub fn gauge_size(len: usize) -> (out: i64)
    ensures
        out == (if len <= i64::MAX {
            len as i64
        } else {
            i64::MAX
        }),
{
    let size: u64 = len as u64;
    if size <= 0x7fff_ffff_ffff_ffff {
        size as i64
    } else {
        i64::MAX
    }
}

/// A vote that was sent arrives as it was.
pub proof fn sent_vote_arrives(v: Vote)
    ensures
        vote_of(proto_vote_parts(sent_vote(v)->0)) == v,
{
}

/// A log id that was sent beside a vote arrives as it was where it is on the vote's node, and on
/// the vote's node otherwise.
pub proof fn sent_log_id_arrives(l: Option<LogId>, v: Vote)
    ensures
        ({
            let arrived = opt_log_id_of(proto_log_id_parts(sent_log_id(l)), v.leader_id.node_id);
            match l {
                None => arrived is None,
                Some(id) => arrived == Some(
                    log_id_of(parts_of_log_id(id), v.leader_id.node_id),
                ) && (id.leader_id.node_id == v.leader_id.node_id ==> arrived == l),
            }
        }),
{
}

} // verus!
