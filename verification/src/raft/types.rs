//! The plain values of Raft: votes, log ids, memberships, entries, requests and responses.

use vstd::prelude::*;

use crate::text::texts_of;

verus! {

/// The leader of a term.
#[derive(Debug, Clone, Copy, PartialEq, Eq, Structural)]
pub struct LeaderId {
    pub term: u64,
    pub node_id: u64,
}

/// A vote for a leader, and whether a quorum granted it.
#[derive(Debug, Clone, Copy, PartialEq, Eq, Structural)]
pub struct Vote {
    pub leader_id: LeaderId,
    pub committed: bool,
}

/// The place of an entry in the log.
#[derive(Debug, Clone, Copy, PartialEq, Eq, Structural)]
pub struct LogId {
    pub leader_id: LeaderId,
    pub index: u64,
}

impl Default for LogId {
    fn default() -> (out: Self)
        ensures
            out == no_log_id(),
    {
        LogId { leader_id: LeaderId { term: 0, node_id: 0 }, index: 0 }
    }
}

/// The log id of nothing.
pub open spec fn no_log_id() -> LogId {
    LogId { leader_id: LeaderId { term: 0, node_id: 0 }, index: 0 }
}

/// What a follower says to an append request.
#[derive(Debug, Clone, Copy, PartialEq, Eq, Structural)]
pub enum AppendEntriesResponse {
    /// All entries were taken.
    Success,
    /// Entries up to the given one were taken.
    PartialSuccess(Option<LogId>),
    /// The log does not hold the entry before the first one sent.
    Conflict,
    /// The follower has seen a greater vote.
    HigherVote(Vote),
}

/// A request for a vote.
#[derive(Debug, Clone, Copy, PartialEq, Eq, Structural)]
pub struct VoteRequest {
    pub vote: Vote,
    pub last_log_id: Option<LogId>,
}

/// The answer to a request for a vote.
#[derive(Debug, Clone, Copy, PartialEq, Eq, Structural)]
pub struct VoteResponse {
    pub vote: Vote,
    pub vote_granted: bool,
    pub last_log_id: Option<LogId>,
}

/// The members of a cluster: the voters of each configuration in force, and the address of each
/// node.
#[derive(Debug, Clone)]
pub struct Membership {
    pub configs: Vec<Vec<u64>>,
    pub node_ids: Vec<u64>,
    pub addresses: Vec<String>,
}

/// What a membership holds.
#[verifier::ext_equal]
pub struct MembershipView {
    pub configs: Seq<Seq<u64>>,
    pub node_ids: Seq<u64>,
    pub addresses: Seq<Seq<char>>,
}

impl View for Membership {
    type V = MembershipView;

    open spec fn view(&self) -> MembershipView {
        MembershipView {
            configs: crate::record::groups_of(self.configs@),
            node_ids: self.node_ids@,
            addresses: texts_of(self.addresses@),
        }
    }
}

/// The membership without nodes.
pub open spec fn no_members() -> MembershipView {
    MembershipView { configs: Seq::empty(), node_ids: Seq::empty(), addresses: Seq::empty() }
}

/// A copy of a list of counts.
pub fn copy_counts(v: &Vec<u64>) -> (out: Vec<u64>)
    ensures
        out@ == v@,
{
    vstd::slice::slice_to_vec(v.as_slice())
}

/// A copy of a list of strings.
pub fn copy_texts(v: &Vec<String>) -> (out: Vec<String>)
    ensures
        texts_of(out@) == texts_of(v@),
{
    let mut out: Vec<String> = Vec::new();
    let mut i: usize = 0;
    while i < v.len()
        invariant
            i <= v@.len(),
            out@.len() == i,
            forall|j: int| 0 <= j < i ==> (#[trigger] out@[j])@ == v@[j]@,
        decreases v@.len() - i,
    {
        out.push(v[i].clone());
        i = i + 1;
    }
    assert(texts_of(out@) =~= texts_of(v@));
    out
}

/// A copy of a list of groups.
pub fn copy_groups(v: &Vec<Vec<u64>>) -> (out: Vec<Vec<u64>>)
    ensures
        crate::record::groups_of(out@) == crate::record::groups_of(v@),
{
    let mut out: Vec<Vec<u64>> = Vec::new();
    let mut i: usize = 0;
    while i < v.len()
        invariant
            i <= v@.len(),
            out@.len() == i,
            forall|j: int| 0 <= j < i ==> (#[trigger] out@[j])@ == v@[j]@,
        decreases v@.len() - i,
    {
        out.push(copy_counts(&v[i]));
        i = i + 1;
    }
    assert(crate::record::groups_of(out@) =~= crate::record::groups_of(v@));
    out
}

impl Membership {
    /// A membership without nodes.
    pub fn empty() -> (out: Self)
        ensures
            out@ == no_members(),
    {
        let out = Membership { configs: Vec::new(), node_ids: Vec::new(), addresses: Vec::new() };
        assert(out@ =~= no_members());
        out
    }

    /// A copy of the membership.
    pub fn copy(&self) -> (out: Self)
        ensures
            out@ == self@,
    {
        Membership {
            configs: copy_groups(&self.configs),
            node_ids: copy_counts(&self.node_ids),
            addresses: copy_texts(&self.addresses),
        }
    }
}

/// A membership and the entry that brought it.
#[derive(Debug, Clone)]
pub struct StoredMembership {
    pub log_id: Option<LogId>,
    pub membership: Membership,
}

/// What a stored membership holds.
#[verifier::ext_equal]
pub struct StoredMembershipView {
    pub log_id: Option<LogId>,
    pub membership: MembershipView,
}

impl View for StoredMembership {
    type V = StoredMembershipView;

    open spec fn view(&self) -> StoredMembershipView {
        StoredMembershipView { log_id: self.log_id, membership: self.membership@ }
    }
}

/// The membership before any entry brought one.
pub open spec fn first_membership() -> StoredMembershipView {
    StoredMembershipView { log_id: None, membership: no_members() }
}

impl StoredMembership {
    /// A copy of the stored membership.
    pub fn copy(&self) -> (out: Self)
        ensures
            out@ == self@,
    {
        StoredMembership { log_id: self.log_id, membership: self.membership.copy() }
    }
}

impl Default for StoredMembership {
    fn default() -> (out: Self)
        ensures
            out@ == first_membership(),
    {
        StoredMembership { log_id: None, membership: Membership::empty() }
    }
}

/// What an entry of the log does.
#[derive(Debug, Clone)]
pub enum EntryPayload<D> {
    /// Nothing: a new leader's first entry.
    Blank,
    /// A command to the state machine.
    Normal(D),
    /// A change of the cluster's members.
    Membership(Membership),
}

/// What a payload holds.
pub enum PayloadView<V> {
    Blank,
    Normal(V),
    Membership(MembershipView),
}

impl<D: View> View for EntryPayload<D> {
    type V = PayloadView<D::V>;

    open spec fn view(&self) -> PayloadView<D::V> {
        match *self {
            EntryPayload::Blank => PayloadView::Blank,
            EntryPayload::Normal(command) => PayloadView::Normal(command@),
            EntryPayload::Membership(membership) => PayloadView::Membership(membership@),
        }
    }
}

/// An entry of the log.
#[derive(Debug, Clone)]
pub struct Entry<D> {
    pub log_id: LogId,
    pub payload: EntryPayload<D>,
}

/// What an entry holds.
pub struct EntryView<V> {
    pub log_id: LogId,
    pub payload: PayloadView<V>,
}

impl<D: View> View for Entry<D> {
    type V = EntryView<D::V>;

    open spec fn view(&self) -> EntryView<D::V> {
        EntryView { log_id: self.log_id, payload: self.payload@ }
    }
}

/// The views of a list of entries.
pub open spec fn entries_of<D: View>(v: Seq<Entry<D>>) -> Seq<EntryView<D::V>> {
    Seq::new(v.len(), |i: int| v[i]@)
}

/// A request to append entries.
#[derive(Debug, Clone)]
pub struct AppendEntriesRequest<D> {
    pub vote: Vote,
    pub prev_log_id: Option<LogId>,
    pub entries: Vec<Entry<D>>,
    pub leader_commit: Option<LogId>,
}

/// What a snapshot covers.
#[derive(Debug, Clone)]
pub struct SnapshotMeta {
    pub last_log_id: Option<LogId>,
    pub last_membership: StoredMembership,
    pub snapshot_id: String,
}

/// A request to install a chunk of a snapshot.
#[derive(Debug, Clone)]
pub struct InstallSnapshotRequest {
    pub vote: Vote,
    pub meta: SnapshotMeta,
    pub offset: u64,
    pub data: Vec<u8>,
    pub done: bool,
}

/// What a node does in its cluster.
#[derive(Debug, Clone, Copy, PartialEq, Eq, Structural)]
pub enum ServerState {
    Learner,
    Follower,
    Candidate,
    Leader,
    Shutdown,
}

/// What a node reports of itself and its cluster.
#[derive(Debug, Clone)]
pub struct NodeMetrics {
    pub id: u64,
    pub state: ServerState,
    pub current_term: u64,
    pub current_leader: Option<u64>,
    pub last_applied: Option<LogId>,
    pub node_ids: Vec<u64>,
}

} // verus!
