//! The answering end of the Raft service: requests are read from their messages, handed to the
//! local node, and its outcome is written into the reply.

use vstd::prelude::*;

use crate::raft::codec::Command;
use crate::raft::messages::{
    AppendCall, AppendReply, ProtoLogId, ProtoVote, SnapshotCall, SnapshotReply, VoteCall, VoteReply,
};
use crate::raft::types::{
    entries_of, AppendEntriesRequest, AppendEntriesResponse, InstallSnapshotRequest, Vote,
    VoteRequest, VoteResponse,
};
use crate::raft::wire::{
    append_request, classified, classify_append_response, decode_entries, entries_in, opt_log_id_of,
    opt_log_id_parts, parts_of_opt_log_id, parts_of_vote, snapshot_meta, vote, vote_of, vote_parts,
    vote_request, wire_membership, LogIdParts, VoteParts,
};
use crate::record::blobs_of;
use crate::status::{says, status, Code, Status};

verus! {

/// The vote on the wire with the given parts.
pub open spec fn proto_vote_of(parts: VoteParts) -> ProtoVote {
    ProtoVote { term: parts.0, node_id: parts.1, committed: parts.2 }
}

/// The log id on the wire with the given parts, if there are any.
pub open spec fn proto_log_id_of(parts: Option<LogIdParts>) -> Option<ProtoLogId> {
    match parts {
        Some(p) => Some(ProtoLogId { term: p.0, index: p.1 }),
        None => None,
    }
}

/// The parts of a vote on the wire.
pub open spec fn proto_vote_parts(v: ProtoVote) -> VoteParts {
    (v.term, v.node_id, v.committed)
}

/// The parts of a log id on the wire, if there is one.
pub open spec fn proto_log_id_parts(l: Option<ProtoLogId>) -> Option<LogIdParts> {
    match l {
        Some(id) => Some((id.term, id.index)),
        None => None,
    }
}

/// Writes a vote for the wire.
pub fn to_proto_vote(parts: VoteParts) -> (out: ProtoVote)
    ensures
        out == proto_vote_of(parts),
{
    ProtoVote { term: parts.0, node_id: parts.1, committed: parts.2 }
}

/// Writes a log id for the wire.
pub fn to_proto_log_id(parts: LogIdParts) -> (out: ProtoLogId)
    ensures
        Some(out) == proto_log_id_of(Some(parts)),
{
    ProtoLogId { term: parts.0, index: parts.1 }
}

/// Writes a log id for the wire, if there is one.
pub fn to_opt_proto_log_id(parts: Option<LogIdParts>) -> (out: Option<ProtoLogId>)
    ensures
        out == proto_log_id_of(parts),
{
    match parts {
        Some(p) => Some(to_proto_log_id(p)),
        None => None,
    }
}

/// Reads the parts of a log id from the wire, if there is one.
pub fn from_proto_log_id(l: Option<ProtoLogId>) -> (out: Option<LogIdParts>)
    ensures
        out == proto_log_id_parts(l),
{
    match l {
        Some(id) => Some((id.term, id.index)),
        None => None,
    }
}

/// Reads a request for a vote.
pub fn read_vote_call(call: &VoteCall) -> (out: Result<VoteRequest, Status>)
    ensures
        match out {
            Ok(req) => call.vote matches Some(v) && req == (VoteRequest {
                vote: vote_of(proto_vote_parts(v)),
                last_log_id: opt_log_id_of(proto_log_id_parts(call.last_log_id), v.node_id),
            }),
            Err(e) => call.vote is None && e@ == status(Code::InvalidArgument, "missing vote"@),
        },
{
    match call.vote {
        Some(v) => Ok(
            vote_request((v.term, v.node_id, v.committed), from_proto_log_id(call.last_log_id)),
        ),
        None => Err(Status::new(Code::InvalidArgument, "missing vote")),
    }
}

/// Writes the node's outcome of a request for a vote.
pub fn write_vote_reply(outcome: Result<VoteResponse, String>) -> (out: Result<VoteReply, Status>)
    ensures
        match outcome {
            Ok(resp) => out == Ok::<VoteReply, Status>(
                VoteReply {
                    vote: Some(proto_vote_of(parts_of_vote(resp.vote))),
                    vote_granted: resp.vote_granted,
                    last_log_id: proto_log_id_of(parts_of_opt_log_id(resp.last_log_id)),
                },
            ),
            Err(text) => out matches Err(e) && e@ == status(
                Code::Internal,
                "vote failed: "@ + text@,
            ),
        },
{
    match outcome {
        Ok(resp) => Ok(
            VoteReply {
                vote: Some(to_proto_vote(vote_parts(&resp.vote))),
                vote_granted: resp.vote_granted,
                last_log_id: to_opt_proto_log_id(opt_log_id_parts(&resp.last_log_id)),
            },
        ),
        Err(text) => Err(Status::with(Code::Internal, "vote failed: ", text.as_str())),
    }
}

/// Reads a request to append entries. A missing vote is reported before an entry that cannot be
/// read.
pub fn read_append_call<D: Command>(call: &AppendCall) -> (out: Result<
    AppendEntriesRequest<D>,
    Status,
>)
    ensures
        match (call.vote, entries_in::<D>(blobs_of(call.entries@))) {
            (None, _) => out matches Err(e) && e@ == status(
                Code::InvalidArgument,
                "missing vote"@,
            ),
            (Some(v), None) => out matches Err(e) && says(
                e,
                Code::InvalidArgument,
                "invalid entry data: "@,
            ),
            (Some(v), Some(entries)) => out matches Ok(req) && {
                &&& req.vote == vote_of(proto_vote_parts(v))
                &&& req.prev_log_id == opt_log_id_of(
                    proto_log_id_parts(call.prev_log_id),
                    v.node_id,
                )
                &&& entries_of(req.entries@) == entries
                &&& req.leader_commit == opt_log_id_of(
                    proto_log_id_parts(call.leader_commit),
                    v.node_id,
                )
            },
        },
{
    let v: ProtoVote = match call.vote {
        Some(v) => v,
        None => {
            return Err(Status::new(Code::InvalidArgument, "missing vote"));
        },
    };
    match decode_entries::<D>(&call.entries) {
        Ok(entries) => Ok(
            append_request(
                (v.term, v.node_id, v.committed),
                from_proto_log_id(call.prev_log_id),
                entries,
                from_proto_log_id(call.leader_commit),
            ),
        ),
        Err(e) => {
            let message: String = e.message();
            proof {
                let text = e->EntryDecode_0@;
                assert(message@.take("invalid entry data: "@.len() as int)
                    =~= "invalid entry data: "@);
            }
            Err(Status { code: Code::InvalidArgument, message })
        },
    }
}

/// Writes the node's outcome of a request to append entries; the vote of the request is echoed
/// unless the node has seen a greater one.
pub fn write_append_reply(
    asked: ProtoVote,
    outcome: Result<AppendEntriesResponse, String>,
) -> (out: Result<AppendReply, Status>)
    ensures
        match outcome {
            Ok(resp) => {
                let w = classified(resp, proto_vote_parts(asked));
                out == Ok::<AppendReply, Status>(
                    AppendReply {
                        vote: Some(proto_vote_of(w.vote)),
                        response_type: w.response_type,
                        partial_success_index: proto_log_id_of(w.partial_index),
                    },
                )
            },
            Err(text) => out matches Err(e) && e@ == status(
                Code::Internal,
                "append_entries failed: "@ + text@,
            ),
        },
{
    match outcome {
        Ok(resp) => {
            let w = classify_append_response(&resp, (asked.term, asked.node_id, asked.committed));
            Ok(
                AppendReply {
                    vote: Some(to_proto_vote(w.vote)),
                    response_type: w.response_type,
                    partial_success_index: to_opt_proto_log_id(w.partial_index),
                },
            )
        },
        Err(text) => Err(Status::with(Code::Internal, "append_entries failed: ", text.as_str())),
    }
}

/// Reads a request to install a chunk of a snapshot.
pub fn read_snapshot_call(call: SnapshotCall) -> (out: Result<InstallSnapshotRequest, Status>)
    ensures
        match (call.vote, call.meta) {
            (None, _) => out matches Err(e) && e@ == status(
                Code::InvalidArgument,
                "missing vote"@,
            ),
            (Some(_), None) => out matches Err(e) && e@ == status(
                Code::InvalidArgument,
                "missing snapshot meta"@,
            ),
            (Some(v), Some(meta)) => out matches Ok(req) && {
                let last = proto_log_id_parts(meta.last_log_id);
                &&& req.vote == vote_of(proto_vote_parts(v))
                &&& req.meta.last_log_id == opt_log_id_of(last, v.node_id)
                &&& req.meta.last_membership@ == wire_membership(
                    last,
                    meta.last_membership,
                    v.node_id,
                )
                &&& req.meta.snapshot_id == meta.snapshot_id
                &&& req.offset == call.offset
                &&& req.data == call.data
                &&& req.done == call.done
            },
        },
{
    let v: ProtoVote = match call.vote {
        Some(v) => v,
        None => {
            return Err(Status::new(Code::InvalidArgument, "missing vote"));
        },
    };
    match call.meta {
        Some(meta) => Ok(
            InstallSnapshotRequest {
                vote: vote((v.term, v.node_id, v.committed)),
                meta: snapshot_meta(
                    from_proto_log_id(meta.last_log_id),
                    meta.last_membership,
                    meta.snapshot_id,
                    v.node_id,
                ),
                offset: call.offset,
                data: call.data,
                done: call.done,
            },
        ),
        None => Err(Status::new(Code::InvalidArgument, "missing snapshot meta")),
    }
}

/// Writes the node's outcome of a request to install a snapshot.
pub fn write_snapshot_reply(outcome: Result<Vote, String>) -> (out: Result<SnapshotReply, Status>)
    ensures
        match outcome {
            Ok(v) => out == Ok::<SnapshotReply, Status>(
                SnapshotReply { vote: Some(proto_vote_of(parts_of_vote(v))) },
            ),
            Err(text) => out matches Err(e) && e@ == status(
                Code::Internal,
                "install_snapshot failed: "@ + text@,
            ),
        },
{
    match outcome {
        Ok(v) => Ok(SnapshotReply { vote: Some(to_proto_vote(vote_parts(&v))) }),
        Err(text) => Err(Status::with(Code::Internal, "install_snapshot failed: ", text.as_str())),
    }
}

} // verus!
