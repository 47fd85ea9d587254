//! What a node tells of itself and its cluster.

use vstd::prelude::*;

use crate::raft::types::{LogId, NodeMetrics, ServerState};
use crate::text::{dec, decimal, texts_of};

verus! {

/// The name of what a node does.
pub open spec fn role_name(state: ServerState) -> Seq<char> {
    match state {
        ServerState::Leader => "leader"@,
        ServerState::Follower => "follower"@,
        ServerState::Candidate => "candidate"@,
        ServerState::Learner => "learner"@,
        ServerState::Shutdown => "shutdown"@,
    }
}

/// A node is healthy while it leads or follows.
pub open spec fn is_healthy(state: ServerState) -> bool {
    state == ServerState::Leader || state == ServerState::Follower
}

/// An optional node id in decimal, or nothing.
pub open spec fn id_or_nothing(id: Option<u64>) -> Seq<char> {
    match id {
        Some(n) => dec(n as nat),
        None => Seq::empty(),
    }
}

/// The index of what was applied last, or zero.
pub open spec fn applied_index(last: Option<LogId>) -> u64 {
    match last {
        Some(id) => id.index,
        None => 0,
    }
}

/// Node ids in decimal.
pub open spec fn ids_in_decimal(ids: Seq<u64>) -> Seq<Seq<char>> {
    Seq::new(ids.len(), |i: int| dec(ids[i] as nat))
}

/// The nodes but the leader.
pub open spec fn without_leader(ids: Seq<u64>, leader: Option<u64>) -> Seq<u64>
    decreases ids.len(),
{
    if ids.len() == 0 {
        Seq::empty()
    } else {
        let rest = without_leader(ids.drop_last(), leader);
        if leader == Some(ids.last()) {
            rest
        } else {
            rest.push(ids.last())
        }
    }
}

/// The name of what a node does.
pub fn role(state: ServerState) -> (out: String)
    ensures
        out@ == role_name(state),
{
    match state {
        ServerState::Leader => "leader".to_owned(),
        ServerState::Follower => "follower".to_owned(),
        ServerState::Candidate => "candidate".to_owned(),
        ServerState::Learner => "learner".to_owned(),
        ServerState::Shutdown => "shutdown".to_owned(),
    }
}

/// Whether a node is healthy.
pub fn healthy(state: ServerState) -> (out: bool)
    ensures
        out == is_healthy(state),
{
    match state {
        ServerState::Leader | ServerState::Follower => true,
        _ => false,
    }
}

/// The leader's id in decimal, or nothing.
pub fn leader_text(metrics: &NodeMetrics) -> (out: String)
    ensures
        out@ == id_or_nothing(metrics.current_leader),
{
    match metrics.current_leader {
        Some(id) => decimal(id),
        None => String::new(),
    }
}

/// The index of what was applied last, or zero.
pub fn commit_index(metrics: &NodeMetrics) -> (out: u64)
    ensures
        out == applied_index(metrics.last_applied),
{
    match metrics.last_applied {
        Some(id) => id.index,
        None => 0,
    }
}

/// The ids of all nodes.
pub fn member_ids(metrics: &NodeMetrics) -> (out: Vec<String>)
    ensures
        texts_of(out@) == ids_in_decimal(metrics.node_ids@),
{
    let mut out: Vec<String> = Vec::new();
    let mut i: usize = 0;
    while i < metrics.node_ids.len()
        invariant
            i <= metrics.node_ids@.len(),
            out@.len() == i,
            forall|j: int| 0 <= j < i ==> (#[trigger] out@[j])@ == dec(metrics.node_ids@[j] as nat),
        decreases metrics.node_ids@.len() - i,
    {
        out.push(decimal(metrics.node_ids[i]));
        i = i + 1;
    }
    assert(texts_of(out@) =~= ids_in_decimal(metrics.node_ids@));
    out
}

/// The ids of all nodes but the leader.
pub fn follower_ids(metrics: &NodeMetrics) -> (out: Vec<String>)
    ensures
        texts_of(out@) == ids_in_decimal(
            without_leader(metrics.node_ids@, metrics.current_leader),
        ),
{
    let mut out: Vec<String> = Vec::new();
    let ghost all = metrics.node_ids@;
    let ghost leader = metrics.current_leader;
    let mut i: usize = 0;
    assert(all.take(0) =~= Seq::empty());
    assert(texts_of(out@) =~= Seq::empty());
    assert(ids_in_decimal(Seq::empty()) =~= Seq::empty());
    while i < metrics.node_ids.len()
        invariant
            i <= metrics.node_ids@.len(),
            all == metrics.node_ids@,
            leader == metrics.current_leader,
            texts_of(out@) == ids_in_decimal(without_leader(all.take(i as int), leader)),
        decreases metrics.node_ids@.len() - i,
    {
        let id: u64 = metrics.node_ids[i];
        let leads: bool = match metrics.current_leader {
            Some(l) => l == id,
            None => false,
        };
        let ghost before = texts_of(out@);
        let ghost shorter = without_leader(all.take(i as int), leader);
        assert(all.take(i + 1).drop_last() =~= all.take(i as int));
        if !leads {
            out.push(decimal(id));
            assert(texts_of(out@) =~= before.push(dec(id as nat)));
            assert(ids_in_decimal(shorter.push(id)) =~= ids_in_decimal(shorter).push(
                dec(id as nat),
            ));
        }
        i = i + 1;
    }
    assert(all.take(i as int) =~= all);
    out
}

} // verus!
