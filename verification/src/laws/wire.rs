//! The wire between nodes: what one node sends is what the other reads, and back.

use std::collections::HashMap;
use vstd::prelude::*;

use crate::raft::codec::Command;
use crate::raft::messages::{
    AppendCall, AppendReply, ProtoLogId, ProtoVote, SnapshotCall, SnapshotReply, VoteCall,
    VoteReply,
};
use crate::raft::network::{
    gauge_size, read_append_reply, read_full_snapshot_reply, read_snapshot_reply, read_vote_reply,
    write_append_call, write_full_snapshot, write_snapshot_call, write_vote_call,
    CustodianNetworkFactory, NetworkError,
};
use crate::raft::service::{
    from_proto_log_id, read_append_call, read_snapshot_call, read_vote_call, to_opt_proto_log_id,
    to_proto_log_id, to_proto_vote, write_append_reply, write_snapshot_reply, write_vote_reply,
};
use crate::raft::types::{
    copy_counts, copy_groups, copy_texts, entries_of, AppendEntriesRequest, AppendEntriesResponse,
    Entry, InstallSnapshotRequest, LeaderId, LogId, Membership, SnapshotMeta, StoredMembership,
    Vote, VoteRequest, VoteResponse,
};
use crate::raft::wire::{
    append_request, append_response_from_wire, classify_append_response, decode_entries,
    encode_entries, log_id, log_id_parts, opt_log_id, opt_log_id_parts, snapshot_meta, vote,
    vote_parts, vote_request, AppendWire, WireError,
};
use crate::status::{Code, Status};
use crate::text::dec;

verus! {

/// A log id that crossed the wire beside a vote of the node: the term and the index arrive, and the
/// node is taken to be the vote's.
pub open spec fn arrives(sent: Option<LogId>, got: Option<LogId>, node: u64) -> bool {
    match sent {
        Some(l) => got matches Some(g) && g.index == l.index && g.leader_id.term
            == l.leader_id.term && g.leader_id.node_id == node,
        None => got is None,
    }
}

/// A request for a vote is read as it was sent.
pub proof fn a_request_for_a_vote_arrives(
    rpc: VoteRequest,
    call: VoteCall,
    out: Result<VoteRequest, Status>,
)
    requires
        call_ensures(write_vote_call, (&rpc,), call),
        call_ensures(read_vote_call, (&call,), out),
    ensures
        out matches Ok(req) && req.vote == rpc.vote && arrives(
            rpc.last_log_id,
            req.last_log_id,
            rpc.vote.leader_id.node_id,
        ),
        call.vote matches Some(v) && v.term == rpc.vote.leader_id.term && v.node_id
            == rpc.vote.leader_id.node_id && v.committed == rpc.vote.committed,
        rpc.last_log_id matches Some(l) ==> (call.last_log_id matches Some(p) && p.term
            == l.leader_id.term && p.index == l.index),
{
}

/// The answer to a request for a vote is read as it was given; a failure is told in words.
pub proof fn an_answer_on_a_vote_arrives(
    resp: VoteResponse,
    reply: VoteReply,
    out: Result<VoteResponse, NetworkError>,
    text: String,
    failed: Result<VoteReply, Status>,
)
    requires
        call_ensures(
            write_vote_reply,
            (Ok::<VoteResponse, String>(resp),),
            Ok::<VoteReply, Status>(reply),
        ),
        call_ensures(read_vote_reply, (&reply,), out),
        call_ensures(write_vote_reply, (Err::<VoteResponse, String>(text),), failed),
    ensures
        out matches Ok(got) && got.vote == resp.vote && got.vote_granted == resp.vote_granted
            && arrives(resp.last_log_id, got.last_log_id, resp.vote.leader_id.node_id),
        failed matches Err(e) && e.code == Code::Internal && e.message@ == "vote failed: "@ + text@,
{
}

/// A request to append entries is read as it was sent, entry for entry.
pub proof fn a_request_to_append_arrives<D: Command>(
    rpc: AppendEntriesRequest<D>,
    sent: Result<AppendCall, NetworkError>,
    out: Result<AppendEntriesRequest<D>, Status>,
    i: int,
)
    requires
        call_ensures(write_append_call::<D>, (&rpc,), sent),
        sent matches Ok(call) ==> call_ensures(read_append_call::<D>, (&call,), out),
    ensures
        sent is Ok,
        out matches Ok(req) && req.vote == rpc.vote && arrives(
            rpc.prev_log_id,
            req.prev_log_id,
            rpc.vote.leader_id.node_id,
        ) && arrives(rpc.leader_commit, req.leader_commit, rpc.vote.leader_id.node_id)
            && req.entries@.len() == rpc.entries@.len() && (0 <= i < rpc.entries@.len()
            ==> req.entries@[i]@ == rpc.entries@[i]@),
{
    let (a, b) = (entries_of(rpc.entries@), entries_of(out->Ok_0.entries@));
    assert(a == b);
    assert(a.len() == rpc.entries@.len() && b.len() == out->Ok_0.entries@.len());
    if 0 <= i < rpc.entries@.len() {
        assert(a[i] == rpc.entries@[i]@ && b[i] == out->Ok_0.entries@[i]@);
    }
}

/// The answer to a request to append is read as it was given. Of a partial success the node of the
/// last entry is taken to be that of the leader who asked.
pub proof fn an_answer_on_appending_arrives(
    asked: ProtoVote,
    resp: AppendEntriesResponse,
    reply: AppendReply,
    out: Result<AppendEntriesResponse, NetworkError>,
    text: String,
    failed: Result<AppendReply, Status>,
)
    requires
        call_ensures(
            write_append_reply,
            (asked, Ok::<AppendEntriesResponse, String>(resp)),
            Ok::<AppendReply, Status>(reply),
        ),
        call_ensures(read_append_reply, (&reply,), out),
        call_ensures(write_append_reply, (asked, Err::<AppendEntriesResponse, String>(text)), failed),
    ensures
        resp is Success ==> out matches Ok(AppendEntriesResponse::Success),
        resp is Conflict ==> out matches Ok(AppendEntriesResponse::Conflict),
        resp matches AppendEntriesResponse::HigherVote(v) ==> (out matches Ok(
            AppendEntriesResponse::HigherVote(w),
        ) && w == v),
        resp matches AppendEntriesResponse::PartialSuccess(l) ==> (out matches Ok(
            AppendEntriesResponse::PartialSuccess(m),
        ) && arrives(l, m, asked.node_id)),
        !(resp is HigherVote) ==> reply.vote == Some(asked),
        failed matches Err(e) && e.code == Code::Internal && e.message@ == "append_entries failed: "@
            + text@,
{
}

/// The outcomes of appending go by numbers: success is nought, a partial success one, a conflict
/// two and a greater vote three. Other numbers are not read.
pub proof fn outcomes_go_by_numbers(
    resp: AppendEntriesResponse,
    echoed: (u64, u64, bool),
    out: AppendWire,
    n: u32,
    part: Option<(u64, u64)>,
    read: Result<AppendEntriesResponse, WireError>,
)
    requires
        call_ensures(classify_append_response, (&resp, echoed), out),
        call_ensures(append_response_from_wire, (n, part, echoed), read),
    ensures
        resp is Success <==> out.response_type == 0,
        resp is PartialSuccess <==> out.response_type == 1,
        resp is Conflict <==> out.response_type == 2,
        resp is HigherVote <==> out.response_type == 3,
        resp matches AppendEntriesResponse::HigherVote(v) ==> out.vote == (
            v.leader_id.term,
            v.leader_id.node_id,
            v.committed,
        ),
        !(resp is HigherVote) ==> out.vote == echoed,
        resp matches AppendEntriesResponse::PartialSuccess(Some(l)) ==> out.partial_index == Some(
            (l.leader_id.term, l.index),
        ),
        !(resp is PartialSuccess) ==> out.partial_index is None,
        read is Ok <==> n < 4,
        read matches Err(e) ==> (e matches WireError::UnknownResponseType(m) && m == n),
        n == 0 ==> read matches Ok(AppendEntriesResponse::Success),
        n == 1 ==> read matches Ok(AppendEntriesResponse::PartialSuccess(_)),
        n == 2 ==> read matches Ok(AppendEntriesResponse::Conflict),
        n == 3 ==> (read matches Ok(AppendEntriesResponse::HigherVote(v)) && v.leader_id.term
            == echoed.0 && v.leader_id.node_id == echoed.1 && v.committed == echoed.2),
{
}

/// A chunk of a snapshot is read as it was sent. The wire carries no members; of their entry the
/// index arrives as far as the wire goes.
pub proof fn a_snapshot_arrives(
    rpc: InstallSnapshotRequest,
    call: SnapshotCall,
    out: Result<InstallSnapshotRequest, Status>,
)
    requires
        call_ensures(write_snapshot_call, (rpc,), call),
        call_ensures(read_snapshot_call, (call,), out),
    ensures
        out matches Ok(req) && req.vote == rpc.vote && req.offset == rpc.offset && req.data@
            == rpc.data@ && req.done == rpc.done && req.meta.snapshot_id@ == rpc.meta.snapshot_id@
            && arrives(rpc.meta.last_log_id, req.meta.last_log_id, rpc.vote.leader_id.node_id),
        out->Ok_0.meta.last_membership.membership.node_ids@.len() == 0,
        rpc.meta.last_membership.log_id matches Some(l) ==> l.index <= u32::MAX ==> (
        out->Ok_0.meta.last_membership.log_id matches Some(m) && m.index == l.index),
        rpc.meta.last_log_id matches Some(l) ==> (call.meta matches Some(m) && m.last_applied
            == l.index),
        rpc.meta.last_log_id is None ==> (call.meta matches Some(m) && m.last_applied == 0),
{
}

/// A whole snapshot is one chunk, from the beginning, that is also the last.
pub proof fn a_whole_snapshot_is_one_chunk(
    v: Vote,
    meta: SnapshotMeta,
    data: Vec<u8>,
    call: SnapshotCall,
    out: Result<InstallSnapshotRequest, Status>,
)
    requires
        call_ensures(write_full_snapshot, (&v, meta, data), call),
        call_ensures(read_snapshot_call, (call,), out),
    ensures
        out matches Ok(req) && req.vote == v && req.offset == 0 && req.done && req.data@ == data@
            && req.meta.snapshot_id@ == meta.snapshot_id@ && arrives(
            meta.last_log_id,
            req.meta.last_log_id,
            v.leader_id.node_id,
        ),
{
}

/// The answer to a snapshot is read as it was given; a failure is told in words.
pub proof fn an_answer_on_a_snapshot_arrives(
    v: Vote,
    reply: SnapshotReply,
    out: Result<Vote, NetworkError>,
    whole: Result<Vote, NetworkError>,
    text: String,
    failed: Result<SnapshotReply, Status>,
)
    requires
        call_ensures(write_snapshot_reply, (Ok::<Vote, String>(v),), Ok::<SnapshotReply, Status>(reply)),
        call_ensures(read_snapshot_reply, (&reply,), out),
        call_ensures(read_full_snapshot_reply, (&reply,), whole),
        call_ensures(write_snapshot_reply, (Err::<Vote, String>(text),), failed),
    ensures
        out == Ok::<Vote, NetworkError>(v),
        whole == Ok::<Vote, NetworkError>(v),
        failed matches Err(e) && e.code == Code::Internal && e.message@
            == "install_snapshot failed: "@ + text@,
{
}

/// A message without a vote is refused, and so is a snapshot that does not tell what it covers.
pub proof fn a_vote_is_needed<D: Command>(
    a: VoteCall,
    b: AppendCall,
    c: SnapshotCall,
    x: Result<VoteRequest, Status>,
    y: Result<AppendEntriesRequest<D>, Status>,
    z: Result<InstallSnapshotRequest, Status>,
)
    requires
        call_ensures(read_vote_call, (&a,), x),
        call_ensures(read_append_call::<D>, (&b,), y),
        call_ensures(read_snapshot_call, (c,), z),
    ensures
        x is Err <==> a.vote is None,
        b.vote is None ==> y is Err,
        z is Err <==> c.vote is None || c.meta is None,
        x matches Err(e) ==> e.code == Code::InvalidArgument && e.message@ == "missing vote"@,
        b.vote is None ==> (y matches Err(e) && e.code == Code::InvalidArgument && e.message@
            == "missing vote"@),
        y matches Err(e) ==> e.code == Code::InvalidArgument,
        z matches Err(e) ==> e.code == Code::InvalidArgument && e.message@ == (if c.vote is None {
            "missing vote"@
        } else {
            "missing snapshot meta"@
        }),
{
}

/// A reply without a vote cannot be used, and the error says so; an unknown outcome is named.
pub proof fn replies_need_a_vote(
    a: VoteReply,
    b: AppendReply,
    c: SnapshotReply,
    x: Result<VoteResponse, NetworkError>,
    y: Result<AppendEntriesResponse, NetworkError>,
    z: Result<Vote, NetworkError>,
    w: Result<Vote, NetworkError>,
)
    requires
        call_ensures(read_vote_reply, (&a,), x),
        call_ensures(read_append_reply, (&b,), y),
        call_ensures(read_snapshot_reply, (&c,), z),
        call_ensures(read_full_snapshot_reply, (&c,), w),
    ensures
        x is Err <==> a.vote is None,
        x matches Err(e) ==> e is MissingVote,
        y is Err <==> b.vote is None || b.response_type > 3,
        b.vote is None ==> (y matches Err(e) && e is MissingVote),
        b.vote is Some && b.response_type > 3 ==> (y matches Err(
            NetworkError::UnknownResponseType(n),
        ) && n == b.response_type),
        z is Err <==> c.vote is None,
        z matches Err(e) ==> e is MissingVote,
        w is Err <==> c.vote is None,
        w matches Err(e) ==> e is MissingSnapshotVote,
{
}

/// Errors say what went wrong.
pub proof fn errors_say_what_went_wrong(
    n: u32,
    text: String,
    a: String,
    b: String,
    c: String,
    d: String,
    e: String,
    f: String,
)
    requires
        call_ensures(NetworkError::message, (&NetworkError::MissingVote,), a),
        call_ensures(NetworkError::message, (&NetworkError::MissingSnapshotVote,), b),
        call_ensures(NetworkError::message, (&NetworkError::UnknownResponseType(n),), c),
        call_ensures(NetworkError::message, (&NetworkError::EntryEncode(text),), d),
        call_ensures(WireError::message, (&WireError::UnknownResponseType(n),), e),
        call_ensures(WireError::message, (&WireError::EntryDecode(text),), f),
    ensures
        a@ == "missing vote"@,
        b@ == "missing vote in snapshot response"@,
        c@ == "unknown append_entries response_type: "@ + dec(n as nat),
        d@ == text@,
        e@ == c@,
        f@ == "invalid entry data: "@ + text@,
{
}

/// Entries are written to bytes from which they are read again, each on its own.
pub proof fn entries_cross_the_wire<D: Command>(
    entries: Vec<Entry<D>>,
    sent: Result<Vec<Vec<u8>>, String>,
    out: Result<Vec<Entry<D>>, WireError>,
    i: int,
)
    requires
        call_ensures(encode_entries::<D>, (&entries,), sent),
        sent matches Ok(raw) ==> call_ensures(decode_entries::<D>, (&raw,), out),
    ensures
        sent matches Ok(raw) && raw@.len() == entries@.len(),
        out matches Ok(got) && got@.len() == entries@.len() && (0 <= i < entries@.len()
            ==> got@[i]@ == entries@[i]@),
{
    let (a, b) = (entries_of(entries@), entries_of(out->Ok_0@));
    assert(a == b);
    assert(a.len() == entries@.len() && b.len() == out->Ok_0@.len());
    if 0 <= i < entries@.len() {
        assert(a[i] == entries@[i]@ && b[i] == out->Ok_0@[i]@);
    }
}

/// An entry is read from its bytes as it was written.
pub proof fn an_entry_is_read_as_written<D: Command>(
    entry: Entry<D>,
    bytes: Vec<u8>,
    raw: &[u8],
    out: Result<Entry<D>, String>,
)
    requires
        call_ensures(Entry::<D>::encode, (&entry,), Ok::<Vec<u8>, String>(bytes)),
        raw@ == bytes@,
        call_ensures(Entry::<D>::decode, (raw,), out),
    ensures
        out matches Ok(got) && got@ == entry@,
{
}

/// The parts of a vote and of a log id are its fields, and give it back.
pub proof fn parts_are_fields(
    v: Vote,
    l: LogId,
    node: u64,
    p: (u64, u64, bool),
    q: (u64, u64),
    w: Vote,
    m: LogId,
)
    requires
        call_ensures(vote_parts, (&v,), p),
        call_ensures(log_id_parts, (&l,), q),
        call_ensures(vote, (p,), w),
        call_ensures(log_id, (q, node), m),
    ensures
        p == (v.leader_id.term, v.leader_id.node_id, v.committed),
        q == (l.leader_id.term, l.index),
        w == v,
        m == (LogId { leader_id: LeaderId { term: l.leader_id.term, node_id: node }, index: l.index }),
{
}

/// A peer that was added is reached at its address, a clone knows what was known when it was made,
/// and an unknown node is reached by its own name.
pub proof fn peers_are_reached_at_their_addresses(
    f: &mut CustodianNetworkFactory,
    clone: CustodianNetworkFactory,
    id: u64,
    address: String,
    other: u64,
    name: &str,
    before: String,
    after: String,
    cloned: String,
    was: Option<String>,
    is: Option<String>,
)
    requires
        call_ensures(CustodianNetworkFactory::clone, (old(f),), clone),
        call_ensures(CustodianNetworkFactory::add_node, (f, id, address), ()),
        call_ensures(CustodianNetworkFactory::client_address, (old(f), other, name), before),
        call_ensures(CustodianNetworkFactory::client_address, (final(f), other, name), after),
        call_ensures(CustodianNetworkFactory::client_address, (&clone, other, name), cloned),
        call_ensures(CustodianNetworkFactory::get_peer_address, (old(f), other), was),
        call_ensures(CustodianNetworkFactory::get_peer_address, (final(f), other), is),
    ensures
        other == id ==> after@ == address@ && is == Some(address),
        other != id ==> after@ == before@ && is == was,
        cloned@ == before@,
        was is None ==> before@ == "http://"@ + name@ + ":8081"@,
        was matches Some(known) ==> before@ == known@,
{
}

/// A new factory knows nobody, and one that is made with peers knows those.
pub proof fn a_factory_knows_its_peers(
    f: CustodianNetworkFactory,
    d: CustodianNetworkFactory,
    g: CustodianNetworkFactory,
    peers: HashMap<u64, String>,
    id: u64,
    none: Option<String>,
    nobody: Option<String>,
    some: Option<String>,
)
    requires
        call_ensures(CustodianNetworkFactory::new, (), f),
        call_ensures(CustodianNetworkFactory::default, (), d),
        call_ensures(CustodianNetworkFactory::with_peers, (peers,), g),
        call_ensures(CustodianNetworkFactory::get_peer_address, (&f, id), none),
        call_ensures(CustodianNetworkFactory::get_peer_address, (&d, id), nobody),
        call_ensures(CustodianNetworkFactory::get_peer_address, (&g, id), some),
    ensures
        none is None && nobody is None,
        some is Some <==> peers@.contains_key(id),
        some matches Some(address) ==> address == peers@[id],
{
}

/// A message of a vote or of a log id holds its parts, and the parts are read from it.
pub proof fn messages_hold_the_parts(
    p: (u64, u64, bool),
    q: (u64, u64),
    v: ProtoVote,
    l: ProtoLogId,
    some: Option<ProtoLogId>,
    none: Option<ProtoLogId>,
    read: Option<(u64, u64)>,
    nothing: Option<(u64, u64)>,
)
    requires
        call_ensures(to_proto_vote, (p,), v),
        call_ensures(to_proto_log_id, (q,), l),
        call_ensures(to_opt_proto_log_id, (Some(q),), some),
        call_ensures(to_opt_proto_log_id, (None::<(u64, u64)>,), none),
        call_ensures(from_proto_log_id, (Some(l),), read),
        call_ensures(from_proto_log_id, (None::<ProtoLogId>,), nothing),
    ensures
        v.term == p.0 && v.node_id == p.1 && v.committed == p.2,
        l.term == q.0 && l.index == q.1,
        some == Some(l) && none is None,
        read == Some(q) && nothing is None,
{
}

/// What may be missing stays missing, and what is there is taken apart and put together as it is.
pub proof fn missing_parts_stay_missing(
    l: LogId,
    node: u64,
    q: (u64, u64),
    m: LogId,
    parts: Option<(u64, u64)>,
    none: Option<(u64, u64)>,
    whole: Option<LogId>,
    nothing: Option<LogId>,
)
    requires
        call_ensures(log_id_parts, (&l,), q),
        call_ensures(log_id, (q, node), m),
        call_ensures(opt_log_id_parts, (&Some(l),), parts),
        call_ensures(opt_log_id_parts, (&None::<LogId>,), none),
        call_ensures(opt_log_id, (Some(q), node), whole),
        call_ensures(opt_log_id, (None::<(u64, u64)>, node), nothing),
    ensures
        parts == Some(q) && none is None,
        whole == Some(m) && nothing is None,
{
}

/// Requests are put together of the parts of the wire, with the node of the vote.
pub proof fn requests_are_put_together<D>(
    p: (u64, u64, bool),
    a: Option<(u64, u64)>,
    b: Option<(u64, u64)>,
    entries: Vec<Entry<D>>,
    v: Vote,
    x: Option<LogId>,
    y: Option<LogId>,
    asked: VoteRequest,
    append: AppendEntriesRequest<D>,
)
    requires
        call_ensures(vote, (p,), v),
        call_ensures(opt_log_id, (a, p.1), x),
        call_ensures(opt_log_id, (b, p.1), y),
        call_ensures(vote_request, (p, a), asked),
        call_ensures(append_request::<D>, (p, a, entries, b), append),
    ensures
        asked.vote == v && asked.last_log_id == x,
        append.vote == v && append.prev_log_id == x && append.leader_commit == y,
        append.entries == entries,
{
}

/// What a snapshot covers is put together of the parts of the wire; its members came with the entry
/// of the given index, and are not told.
pub proof fn what_a_snapshot_covers_is_put_together(
    last: Option<(u64, u64)>,
    version: u32,
    id: String,
    node: u64,
    out: SnapshotMeta,
    x: Option<LogId>,
)
    requires
        call_ensures(snapshot_meta, (last, version, id, node), out),
        call_ensures(opt_log_id, (last, node), x),
    ensures
        out.last_log_id == x,
        out.snapshot_id@ == id@,
        out.last_membership.log_id matches Some(l) && l.index == version && l.leader_id.node_id
            == node && l.leader_id.term == (if last is Some {
            (last->0).0
        } else {
            0
        }),
        out.last_membership.membership.node_ids@.len() == 0,
        out.last_membership.membership.configs@.len() == 0,
        out.last_membership.membership.addresses@.len() == 0,
{
    let m = out.last_membership.membership;
    assert(m@.configs.len() == m.configs@.len());
    assert(m@.addresses.len() == m.addresses@.len());
}

/// A copy of members names the same nodes at the same addresses, in the same configurations; there
/// is nobody in the empty one.
pub proof fn copies_of_members_are_the_same(
    m: Membership,
    out: Membership,
    s: StoredMembership,
    copy: StoredMembership,
    none: Membership,
    i: int,
    j: int,
)
    requires
        call_ensures(Membership::copy, (&m,), out),
        call_ensures(StoredMembership::copy, (&s,), copy),
        call_ensures(Membership::empty, (), none),
        s.membership == m,
    ensures
        out.node_ids@ == m.node_ids@ && copy.membership.node_ids@ == m.node_ids@,
        out.addresses@.len() == m.addresses@.len() && out.configs@.len() == m.configs@.len(),
        0 <= i < m.addresses@.len() ==> out.addresses@[i]@ == m.addresses@[i]@,
        0 <= j < m.configs@.len() ==> out.configs@[j]@ == m.configs@[j]@,
        copy.log_id == s.log_id,
        copy.membership@ == m@,
        none.node_ids@.len() == 0 && none.addresses@.len() == 0 && none.configs@.len() == 0,
{
    assert(out@ == m@);
    assert(out@.addresses.len() == out.addresses@.len() && m@.addresses.len()
        == m.addresses@.len());
    assert(out@.configs.len() == out.configs@.len() && m@.configs.len() == m.configs@.len());
    assert(none@.addresses.len() == none.addresses@.len() && none@.configs.len()
        == none.configs@.len());
    if 0 <= i < m.addresses@.len() {
        assert(out@.addresses[i] == m@.addresses[i]);
    }
    if 0 <= j < m.configs@.len() {
        assert(out@.configs[j] == m@.configs[j]);
    }
}

/// Copies of lists hold the same in the same order.
pub proof fn copies_of_lists_are_the_same(
    a: Vec<u64>,
    b: Vec<String>,
    c: Vec<Vec<u64>>,
    x: Vec<u64>,
    y: Vec<String>,
    z: Vec<Vec<u64>>,
    i: int,
)
    requires
        call_ensures(copy_counts, (&a,), x),
        call_ensures(copy_texts, (&b,), y),
        call_ensures(copy_groups, (&c,), z),
    ensures
        x@ == a@,
        y@.len() == b@.len() && (0 <= i < b@.len() ==> y@[i]@ == b@[i]@),
        z@.len() == c@.len() && (0 <= i < c@.len() ==> z@[i]@ == c@[i]@),
{
    let (p, q) = (crate::text::texts_of(y@), crate::text::texts_of(b@));
    let (r, s) = (crate::record::groups_of(z@), crate::record::groups_of(c@));
    assert(p.len() == y@.len() && q.len() == b@.len() && r.len() == z@.len() && s.len() == c@.len());
    if 0 <= i < b@.len() {
        assert(p[i] == q[i]);
    }
    if 0 <= i < c@.len() {
        assert(r[i] == s[i]);
    }
}

/// A size is shown as it is, as far as a gauge goes.
pub proof fn a_size_is_shown(len: usize, out: i64)
    requires
        call_ensures(gauge_size, (len,), out),
    ensures
        len <= i64::MAX ==> out == len,
        len > i64::MAX ==> out == i64::MAX,
{
}

} // verus!
