//! The Raft log and the bookkeeping beside it.

use vstd::prelude::*;
use vstd::utf8::encode_utf8;

use crate::bytes::{
    be8, be8_injective, be8_order, be8_round_trip, from_be8, from_be8_round_trip, lex_lt, read_be8,
    to_be8,
};
use crate::custodian::locks::{
    grant, granted, lock_step, lookup_lock, CustodianStateMachine, LockCommand, LockResponse,
    LockResponseView, TREE_LOCKS,
};
use crate::db::storage::{
    Held, Lookup, Storage, StorageError, TREE_RAFT_LOG, TREE_RAFT_METADATA,
};
use crate::raft::codec::{entry_bytes, entry_in};
use crate::raft::types::{
    entries_of, first_membership, no_log_id, Entry, EntryPayload, EntryView, LeaderId, LogId,
    Membership, PayloadView, StoredMembership, StoredMembershipView, Vote,
};
use crate::record::{json_error_text, read_record, record_json, record_of, write_record, Record,
    RecordView};
use crate::store;
use crate::store::{
    after_writes, batch_writes, holds_nothing, is_listing, not_after, not_before, pairs_of,
};
use crate::text::blob_of;

verus! {

// ---- Errors ----

/// What an error on the log or the state machine is about.
#[derive(Debug, Clone)]
pub enum ErrorSubject {
    /// An entry of the log.
    Log(LogId),
    /// The vote.
    Vote,
    /// The state machine.
    StateMachine,
    /// The snapshot with the given id that covers the log up to the given entry.
    Snapshot(Option<LogId>, String),
}

/// What was being done.
#[derive(Debug, Clone, Copy, PartialEq, Eq, Structural)]
pub enum ErrorVerb {
    Read,
    Write,
}

/// An error on the log or the state machine.
#[derive(Debug)]
pub struct RaftStorageError {
    pub subject: ErrorSubject,
    pub verb: ErrorVerb,
    pub cause: StorageError,
}

fn io_err(subject: ErrorSubject, verb: ErrorVerb, cause: StorageError) -> (out: RaftStorageError)
    ensures
        out == (RaftStorageError { subject, verb, cause }),
{
    RaftStorageError { subject, verb, cause }
}

fn log_read(cause: StorageError) -> (out: RaftStorageError)
    ensures
        out == (RaftStorageError {
            subject: ErrorSubject::Log(no_log_id()),
            verb: ErrorVerb::Read,
            cause,
        }),
{
    io_err(ErrorSubject::Log(LogId::default()), ErrorVerb::Read, cause)
}

fn log_w(id: LogId, cause: StorageError) -> (out: RaftStorageError)
    ensures
        out == (RaftStorageError { subject: ErrorSubject::Log(id), verb: ErrorVerb::Write, cause }),
{
    io_err(ErrorSubject::Log(id), ErrorVerb::Write, cause)
}

fn log_r(id: LogId, cause: StorageError) -> (out: RaftStorageError)
    ensures
        out == (RaftStorageError { subject: ErrorSubject::Log(id), verb: ErrorVerb::Read, cause }),
{
    io_err(ErrorSubject::Log(id), ErrorVerb::Read, cause)
}

fn vote_write(cause: StorageError) -> (out: RaftStorageError)
    ensures
        out == (RaftStorageError { subject: ErrorSubject::Vote, verb: ErrorVerb::Write, cause }),
{
    io_err(ErrorSubject::Vote, ErrorVerb::Write, cause)
}

pub(crate) fn sm_read(cause: StorageError) -> (out: RaftStorageError)
    ensures
        out == (RaftStorageError {
            subject: ErrorSubject::StateMachine,
            verb: ErrorVerb::Read,
            cause,
        }),
{
    io_err(ErrorSubject::StateMachine, ErrorVerb::Read, cause)
}

pub(crate) fn sm_write(cause: StorageError) -> (out: RaftStorageError)
    ensures
        out == (RaftStorageError {
            subject: ErrorSubject::StateMachine,
            verb: ErrorVerb::Write,
            cause,
        }),
{
    io_err(ErrorSubject::StateMachine, ErrorVerb::Write, cause)
}

// ---- The log ----

/// One end of a range of log indexes.
#[derive(Debug, Clone, Copy, PartialEq, Eq, Structural)]
pub enum IndexBound {
    Included(u64),
    Excluded(u64),
    Unbounded,
}

/// The first index at or after a lower end.
pub open spec fn first_index(start: IndexBound) -> int {
    match start {
        IndexBound::Included(i) => i as int,
        IndexBound::Excluded(i) => i + 1,
        IndexBound::Unbounded => 0,
    }
}

/// The last index at or before an upper end, if there is one.
pub open spec fn last_index(end: IndexBound) -> Option<int> {
    match end {
        IndexBound::Included(i) => Some(i as int),
        IndexBound::Excluded(i) => Some(i - 1),
        IndexBound::Unbounded => None,
    }
}

/// Where an entry of the log stands.
pub open spec fn entry_at(index: u64) -> (Seq<char>, Seq<u8>) {
    (TREE_RAFT_LOG@, be8(index))
}

/// The entry at an index, if there is one that can be read.
pub open spec fn logged(held: Held, index: u64) -> Option<EntryView<LockCommand>> {
    if held.contains_key(entry_at(index)) {
        entry_in::<LockCommand>(held[entry_at(index)])
    } else {
        None
    }
}

/// Every key of the log is an index, and the entry under it can be read and has that index.
pub open spec fn log_sound(held: Held) -> bool {
    forall|key: Seq<u8>| #[trigger]
        held.contains_key((TREE_RAFT_LOG@, key)) ==> key.len() == 8 && (entry_in::<LockCommand>(
            held[(TREE_RAFT_LOG@, key)],
        ) matches Some(entry) && entry.log_id.index == from_be8(key))
}

/// How far a scan of the log has come.
pub enum Scan {
    /// It goes on, with the entries so far.
    Going(Seq<EntryView<LockCommand>>),
    /// It has passed the end of the range.
    Ended(Seq<EntryView<LockCommand>>),
    /// It met a key that is no index.
    BadKey,
    /// It met an entry that cannot be read, at the given index.
    BadEntry(u64),
}

/// A scan of the first `n` pairs of a listing, up to the index `end`.
pub open spec fn scanned(list: Seq<(Seq<u8>, Seq<u8>)>, end: Option<int>, n: nat) -> Scan
    decreases n,
{
    if n == 0 {
        Scan::Going(Seq::empty())
    } else {
        match scanned(list, end, (n - 1) as nat) {
            Scan::Going(entries) => {
                let (key, value) = list[n - 1];
                if key.len() != 8 {
                    Scan::BadKey
                } else if end matches Some(last) && from_be8(key) > last {
                    Scan::Ended(entries)
                } else {
                    match entry_in::<LockCommand>(value) {
                        Some(entry) => Scan::Going(entries.push(entry)),
                        None => Scan::BadEntry(from_be8(key)),
                    }
                }
            },
            other => other,
        }
    }
}

/// A scan that has stopped stays as it is.
proof fn stopped_scan_stays(list: Seq<(Seq<u8>, Seq<u8>)>, end: Option<int>, n: nat, m: nat)
    requires
        n <= m,
        !(scanned(list, end, n) is Going),
    ensures
        scanned(list, end, m) == scanned(list, end, n),
    decreases m,
{
    if n < m {
        stopped_scan_stays(list, end, n, (m - 1) as nat);
    }
}

/// `entries` are the entries of the log from `first` to `last`, in order.
pub open spec fn is_log_range(
    held: Held,
    first: int,
    last: Option<int>,
    entries: Seq<EntryView<LockCommand>>,
) -> bool {
    &&& forall|i: int, j: int|
        0 <= i < j < entries.len() ==> (#[trigger] entries[i]).log_id.index < (#[trigger] entries[j]).log_id.index
    &&& forall|i: int|
        0 <= i < entries.len() ==> first <= (#[trigger] entries[i]).log_id.index && (last matches Some(
            l,
        ) ==> entries[i].log_id.index <= l) && logged(held, entries[i].log_id.index) == Some(
            entries[i],
        )
    &&& forall|index: u64|
        first <= index && (last matches Some(l) ==> index <= l) && #[trigger] held.contains_key(
            entry_at(index),
        ) ==> exists|i: int| 0 <= i < entries.len() && (#[trigger] entries[i]).log_id.index == index
}

/// A scan of a sound log gives the entries it passed, and stops only at the end of the range.
proof fn sound_scan(
    held: Held,
    start: u64,
    list: Seq<(Seq<u8>, Seq<u8>)>,
    end: Option<int>,
    n: nat,
)
    requires
        log_sound(held),
        is_listing(held, TREE_RAFT_LOG@, not_before(be8(start)), list),
        n <= list.len(),
    ensures
        match scanned(list, end, n) {
            Scan::Going(entries) => entries.len() == n && (forall|i: int|
                0 <= i < n ==> (#[trigger] entries[i]).log_id.index == from_be8(list[i].0) && entry_in::<
                    LockCommand,
                >(list[i].1) == Some(entries[i]) && (end matches Some(last) ==> from_be8(list[i].0)
                    <= last)),
            Scan::Ended(entries) => entries.len() < n && end is Some && from_be8(
                list[entries.len() as int].0,
            ) > end->0 && (forall|i: int|
                0 <= i < entries.len() ==> (#[trigger] entries[i]).log_id.index == from_be8(
                    list[i].0,
                ) && entry_in::<LockCommand>(list[i].1) == Some(entries[i]) && from_be8(list[i].0)
                    <= end->0),
            _ => false,
        },
    decreases n,
{
    if n > 0 {
        sound_scan(held, start, list, end, (n - 1) as nat);
        let at = (TREE_RAFT_LOG@, list[n - 1].0);
        assert(not_before(be8(start))(list[n - 1].0));
        assert(held.contains_pair(at, list[n - 1].1));
        assert(held.contains_key(at));
    }
}

/// What a scan of a sound log gives is the range it was asked for.
proof fn sound_scan_is_the_range(
    held: Held,
    start: u64,
    list: Seq<(Seq<u8>, Seq<u8>)>,
    end: Option<int>,
)
    requires
        log_sound(held),
        is_listing(held, TREE_RAFT_LOG@, not_before(be8(start)), list),
    ensures
        match scanned(list, end, list.len()) {
            Scan::Going(entries) => is_log_range(held, start as int, end, entries),
            Scan::Ended(entries) => is_log_range(held, start as int, end, entries),
            _ => false,
        },
{
    sound_scan(held, start, list, end, list.len());
    let entries = match scanned(list, end, list.len()) {
        Scan::Going(entries) => entries,
        Scan::Ended(entries) => entries,
        _ => Seq::empty(),
    };
    assert forall|i: int| 0 <= i < list.len() implies (#[trigger] list[i]).0.len() == 8
        && held.contains_pair((TREE_RAFT_LOG@, list[i].0), list[i].1) && start <= from_be8(
        list[i].0,
    ) && list[i].0 == be8(from_be8(list[i].0)) by {
        assert(not_before(be8(start))(list[i].0));
        assert(held.contains_key((TREE_RAFT_LOG@, list[i].0)));
        from_be8_round_trip(list[i].0);
        be8_order(from_be8(list[i].0), start);
    }
    assert forall|i: int, j: int| 0 <= i < j < list.len() implies from_be8((#[trigger] list[i]).0)
        < from_be8((#[trigger] list[j]).0) by {
        assert(lex_lt(list[i].0, list[j].0));
        assert(list[i].0 == be8(from_be8(list[i].0)) && list[j].0 == be8(from_be8(list[j].0)));
        be8_order(from_be8(list[i].0), from_be8(list[j].0));
    }
    assert forall|i: int, j: int| 0 <= i < j < entries.len() implies (#[trigger] entries[i]).log_id.index
        < (#[trigger] entries[j]).log_id.index by {
        assert(from_be8(list[i].0) < from_be8(list[j].0));
    }
    assert forall|i: int| 0 <= i < entries.len() implies start <= (#[trigger] entries[i]).log_id.index && (
    end matches Some(l) ==> entries[i].log_id.index <= l) && logged(held, entries[i].log_id.index)
        == Some(entries[i]) by {
        assert(held.contains_pair((TREE_RAFT_LOG@, list[i].0), list[i].1));
        assert(list[i].0 == be8(from_be8(list[i].0)));
    }
    assert forall|index: u64|
        start <= index && (end matches Some(l) ==> index <= l) && #[trigger] held.contains_key(
            entry_at(index),
        ) implies exists|i: int| 0 <= i < entries.len() && (#[trigger] entries[i]).log_id.index == index by {
        be8_order(index, start);
        assert(not_before(be8(start))(be8(index)));
        assert(held.dom().contains((TREE_RAFT_LOG@, be8(index))));
        let i = choose|i: int| 0 <= i < list.len() && (#[trigger] list[i]).0 == be8(index);
        be8_round_trip(index);
        if i >= entries.len() {
            let e = entries.len() as int;
            assert(list[e].0.len() == 8);
            if e < i {
                assert(from_be8(list[e].0) < from_be8(list[i].0));
            }
        }
        assert(entries[i].log_id.index == index);
    }
}

/// The writes that appending entries does: the last entry of each index.
pub open spec fn entry_writes(entries: Seq<EntryView<LockCommand>>) -> Map<Seq<u8>, Option<Seq<u8>>>
    decreases entries.len(),
{
    if entries.len() == 0 {
        Map::empty()
    } else {
        let last = entries.last();
        entry_writes(entries.drop_last()).insert(
            be8(last.log_id.index),
            Some(entry_bytes::<LockCommand>(last)),
        )
    }
}

/// Entry `i` is the last of its index.
pub open spec fn is_last_of_index(entries: Seq<EntryView<LockCommand>>, i: int) -> bool {
    forall|j: int|
        i < j < entries.len() ==> (#[trigger] entries[j]).log_id.index != entries[i].log_id.index
}

/// Storage without the entries of the log whose keys pass `rule`.
pub open spec fn log_cut(held: Held, rule: spec_fn(Seq<u8>) -> bool) -> Held {
    Map::new(
        |at: (Seq<char>, Seq<u8>)| held.contains_key(at) && !(at.0 == TREE_RAFT_LOG@ && rule(at.1)),
        |at: (Seq<char>, Seq<u8>)| held[at],
    )
}

/// Every byte string that is written for an entry is read back as that entry.
spec fn all_readable(entries: Seq<EntryView<LockCommand>>) -> bool {
    forall|i: int|
        0 <= i < entries.len() ==> entry_in::<LockCommand>(
            entry_bytes::<LockCommand>(#[trigger] entries[i]),
        ) == Some(entries[i])
}

/// What the writes of entries hold.
proof fn entry_writes_hold(entries: Seq<EntryView<LockCommand>>)
    requires
        all_readable(entries),
    ensures
        forall|key: Seq<u8>| #[trigger]
            entry_writes(entries).contains_key(key) ==> key.len() == 8 && (entry_writes(entries)[key] matches Some(
                bytes,
            ) && entry_in::<LockCommand>(bytes) matches Some(entry) && entry.log_id.index == from_be8(
                key,
            )),
        forall|i: int|
            0 <= i < entries.len() ==> entry_writes(entries).contains_key(
                be8((#[trigger] entries[i]).log_id.index),
            ),
        forall|i: int|
            0 <= i < entries.len() && is_last_of_index(entries, i) ==> entry_writes(entries)[be8(
                (#[trigger] entries[i]).log_id.index,
            )] == Some(entry_bytes::<LockCommand>(entries[i])),
    decreases entries.len(),
{
    if entries.len() > 0 {
        let rest = entries.drop_last();
        let last = entries.last();
        assert(all_readable(rest)) by {
            assert forall|i: int| 0 <= i < rest.len() implies entry_in::<LockCommand>(
                entry_bytes::<LockCommand>(#[trigger] rest[i]),
            ) == Some(rest[i]) by {
                assert(rest[i] == entries[i]);
            }
        }
        entry_writes_hold(rest);
        assert(last == entries[entries.len() - 1]);
        be8_round_trip(last.log_id.index);
        assert forall|i: int| 0 <= i < entries.len() && is_last_of_index(entries, i) implies entry_writes(
            entries,
        )[be8((#[trigger] entries[i]).log_id.index)] == Some(entry_bytes::<LockCommand>(entries[i])) by {
            if i < rest.len() {
                assert(entries[entries.len() - 1].log_id.index != entries[i].log_id.index);
                if be8(entries[i].log_id.index) == be8(last.log_id.index) {
                    be8_injective(entries[i].log_id.index, last.log_id.index);
                }
                assert(rest[i] == entries[i]);
                assert(is_last_of_index(rest, i)) by {
                    assert forall|j: int| i < j < rest.len() implies (#[trigger] rest[j]).log_id.index
                        != rest[i].log_id.index by {
                        assert(rest[j] == entries[j]);
                    }
                }
            }
        }
        assert forall|i: int| 0 <= i < entries.len() implies entry_writes(entries).contains_key(
            be8((#[trigger] entries[i]).log_id.index),
        ) by {
            if i < rest.len() {
                assert(rest[i] == entries[i]);
            }
        }
    }
}

/// A bound as an integer.
pub open spec fn opt_int(n: Option<u64>) -> Option<int> {
    match n {
        Some(i) => Some(i as int),
        None => None,
    }
}

/// Reads the entries of a listing of the log up to an index.
pub fn scan_entries(pairs: &Vec<(Vec<u8>, Vec<u8>)>, to: Option<u64>) -> (out: Result<
    Vec<Entry<LockCommand>>,
    RaftStorageError,
>)
    ensures
        match scanned(pairs_of(pairs@), opt_int(to), pairs@.len()) {
            Scan::Going(found) => out matches Ok(entries) && entries_of(entries@) == found,
            Scan::Ended(found) => out matches Ok(entries) && entries_of(entries@) == found,
            Scan::BadKey => out matches Err(e) && e.verb == ErrorVerb::Read && e.cause is Corrupt
                && e.subject == ErrorSubject::Log(no_log_id()),
            Scan::BadEntry(index) => out matches Err(e) && e.verb == ErrorVerb::Read
                && e.cause is Corrupt && e.subject == ErrorSubject::Log(
                LogId { leader_id: LeaderId { term: 0, node_id: 0 }, index },
            ),
        },
{
    let ghost list = pairs_of(pairs@);
    let ghost last = opt_int(to);
    let mut entries: Vec<Entry<LockCommand>> = Vec::new();
    let mut i: usize = 0;
    assert(entries_of(entries@) =~= Seq::empty());
    while i < pairs.len()
        invariant
            i <= pairs@.len(),
            list == pairs_of(pairs@),
            last == opt_int(to),
            scanned(list, last, i as nat) == Scan::Going(entries_of(entries@)),
        decreases pairs@.len() - i,
    {
        let ghost before = entries_of(entries@);
        proof {
            if !(scanned(list, last, (i + 1) as nat) is Going) {
                stopped_scan_stays(list, last, (i + 1) as nat, list.len());
            }
        }
        let index: u64 = match read_be8(pairs[i].0.as_slice()) {
            Some(index) => index,
            None => {
                return Err(
                    log_read(
                        StorageError::Corrupt(
                            "invalid log key format: expected 8 bytes".to_owned(),
                        ),
                    ),
                );
            },
        };
        match to {
            Some(t) => {
                if index > t {
                    return Ok(entries);
                }
            },
            None => {},
        }
        match Entry::decode(pairs[i].1.as_slice()) {
            Ok(entry) => {
                let ghost seen = entry@;
                entries.push(entry);
                assert(entries_of(entries@) =~= before.push(seen));
            },
            Err(text) => {
                return Err(
                    log_r(
                        LogId { leader_id: LeaderId { term: 0, node_id: 0 }, index },
                        StorageError::Corrupt(text),
                    ),
                );
            },
        }
        i = i + 1;
    }
    Ok(entries)
}

/// Reads the entries of the log in a range, in order.
pub fn read_log(storage: &Storage, start: IndexBound, end: IndexBound) -> (out: Result<
    Vec<Entry<LockCommand>>,
    RaftStorageError,
>)
    requires
        first_index(start) <= u64::MAX,
        last_index(end) matches Some(last) ==> 0 <= last,
    ensures
        match out {
            Ok(entries) => exists|list: Seq<(Seq<u8>, Seq<u8>)>|
                is_listing(
                    storage@,
                    TREE_RAFT_LOG@,
                    not_before(be8(first_index(start) as u64)),
                    list,
                ) && (#[trigger] scanned(list, last_index(end), list.len()) == Scan::Going(
                    entries_of(entries@),
                ) || scanned(list, last_index(end), list.len()) == Scan::Ended(
                    entries_of(entries@),
                )),
            Err(e) => e.verb == ErrorVerb::Read && (e.cause is Backend || (e.cause is Corrupt
                && exists|list: Seq<(Seq<u8>, Seq<u8>)>|
                is_listing(
                    storage@,
                    TREE_RAFT_LOG@,
                    not_before(be8(first_index(start) as u64)),
                    list,
                ) && match #[trigger] scanned(list, last_index(end), list.len()) {
                    Scan::BadKey => e.subject == ErrorSubject::Log(no_log_id()),
                    Scan::BadEntry(index) => e.subject == ErrorSubject::Log(
                        LogId { leader_id: LeaderId { term: 0, node_id: 0 }, index },
                    ),
                    _ => false,
                })),
        },
        log_sound(storage@) ==> match out {
            Ok(entries) => is_log_range(
                storage@,
                first_index(start),
                last_index(end),
                entries_of(entries@),
            ),
            Err(e) => e.cause is Backend,
        },
{
    let from: u64 = match start {
        IndexBound::Included(i) => i,
        IndexBound::Excluded(i) => i + 1,
        IndexBound::Unbounded => 0,
    };
    let to: Option<u64> = match end {
        IndexBound::Included(i) => Some(i),
        IndexBound::Excluded(i) => Some(i - 1),
        IndexBound::Unbounded => None,
    };
    let ghost last = last_index(end);
    let key: Vec<u8> = to_be8(from);
    let pairs: Vec<(Vec<u8>, Vec<u8>)> = match storage.list_from(TREE_RAFT_LOG, key.as_slice()) {
        Ok(pairs) => pairs,
        Err(e) => {
            return Err(log_read(e));
        },
    };
    proof {
        if log_sound(storage@) {
            sound_scan_is_the_range(storage@, from, pairs_of(pairs@), last);
        }
    }
    scan_entries(&pairs, to)
}

// ---- Bookkeeping ----

/// Where the vote is kept.
pub open spec fn vote_at() -> (Seq<char>, Seq<u8>) {
    (TREE_RAFT_METADATA@, encode_utf8("vote"@))
}

/// Where the id of the last purged entry is kept.
pub open spec fn purged_at() -> (Seq<char>, Seq<u8>) {
    (TREE_RAFT_METADATA@, encode_utf8("last_purged"@))
}

/// The record of three counts.
pub open spec fn counts_record(a: u64, b: u64, c: u64) -> RecordView {
    RecordView {
        counts: seq![a, b, c],
        groups: Seq::empty(),
        stamps: Seq::empty(),
        texts: Seq::empty(),
        blobs: Seq::empty(),
    }
}

/// The three counts that stored bytes hold, if they hold such a record.
pub open spec fn counts_in(bytes: Seq<u8>) -> Option<(u64, u64, u64)> {
    match record_of(bytes) {
        Some(r) => if r == counts_record(r.counts[0], r.counts[1], r.counts[2]) {
            Some((r.counts[0], r.counts[1], r.counts[2]))
        } else {
            None
        },
        None => None,
    }
}

/// The stored bytes of a vote.
pub open spec fn vote_bytes(v: Vote) -> Seq<u8> {
    record_json(
        counts_record(
            v.leader_id.term,
            v.leader_id.node_id,
            if v.committed {
                1
            } else {
                0
            },
        ),
    )
}

/// The stored bytes of a log id.
pub open spec fn log_id_bytes(l: LogId) -> Seq<u8> {
    record_json(counts_record(l.leader_id.term, l.leader_id.node_id, l.index))
}

/// The value that stands at a place, if there is one.
pub open spec fn row_at(held: Held, at: (Seq<char>, Seq<u8>)) -> Option<Seq<u8>> {
    if held.contains_key(at) {
        Some(held[at])
    } else {
        None
    }
}

/// What the row of the vote holds, where there is one.
pub open spec fn vote_in_row(row: Option<Seq<u8>>) -> Lookup<Vote> {
    match row {
        None => Lookup::Missing,
        Some(bytes) => match counts_in(bytes) {
            Some((term, node_id, committed)) => if committed <= 1 {
                Lookup::Found(
                    Vote { leader_id: LeaderId { term, node_id }, committed: committed == 1 },
                )
            } else {
                Lookup::Corrupt
            },
            None => Lookup::Corrupt,
        },
    }
}

/// What the row of the last purged entry holds, where there is one.
pub open spec fn purged_in_row(row: Option<Seq<u8>>) -> Lookup<LogId> {
    match row {
        None => Lookup::Missing,
        Some(bytes) => match counts_in(bytes) {
            Some((term, node_id, index)) => Lookup::Found(
                LogId { leader_id: LeaderId { term, node_id }, index },
            ),
            None => Lookup::Corrupt,
        },
    }
}

/// The vote that is kept.
pub open spec fn kept_vote(held: Held) -> Lookup<Vote> {
    vote_in_row(row_at(held, vote_at()))
}

/// The id of the last purged entry that is kept.
pub open spec fn kept_purged(held: Held) -> Lookup<LogId> {
    purged_in_row(row_at(held, purged_at()))
}

/// The value of a lookup that met nothing corrupt.
pub open spec fn found<T>(l: Lookup<T>) -> Option<T> {
    match l {
        Lookup::Found(t) => Some(t),
        _ => None,
    }
}

fn write_counts(a: u64, b: u64, c: u64) -> (out: Result<Vec<u8>, StorageError>)
    ensures
        out matches Ok(bytes) && bytes@ == record_json(counts_record(a, b, c)) && counts_in(bytes@)
            == Some((a, b, c)),
{
    let mut counts: Vec<u64> = Vec::new();
    counts.push(a);
    counts.push(b);
    counts.push(c);
    let record = Record {
        counts,
        groups: Vec::new(),
        stamps: Vec::new(),
        texts: Vec::new(),
        blobs: Vec::new(),
    };
    assert(record@ =~= counts_record(a, b, c));
    match write_record(&record) {
        Ok(bytes) => Ok(bytes),
        Err(e) => Err(StorageError::Corrupt(json_error_text(&e))),
    }
}

fn read_counts(bytes: &[u8]) -> (out: Result<(u64, u64, u64), StorageError>)
    ensures
        match out {
            Ok(counts) => counts_in(bytes@) == Some(counts),
            Err(e) => e is Corrupt && counts_in(bytes@) is None,
        },
{
    match read_record(bytes) {
        Ok(record) => {
            let ghost view = record@;
            if record.counts.len() == 3 && record.groups.len() == 0 && record.stamps.len() == 0
                && record.texts.len() == 0 && record.blobs.len() == 0 {
                assert(view =~= counts_record(view.counts[0], view.counts[1], view.counts[2]));
                Ok((record.counts[0], record.counts[1], record.counts[2]))
            } else {
                assert(view.counts.len() == record.counts@.len());
                assert(view.groups.len() == record.groups@.len());
                assert(view.stamps.len() == record.stamps@.len());
                assert(view.texts.len() == record.texts@.len());
                assert(view.blobs.len() == record.blobs@.len());
                Err(StorageError::Corrupt("not three counts".to_owned()))
            }
        },
        Err(e) => Err(StorageError::Corrupt(json_error_text(&e))),
    }
}

/// Reads the row of the vote, where there is one.
pub fn read_vote_row(row: Option<Vec<u8>>) -> (out: Result<Option<Vote>, StorageError>)
    ensures
        match vote_in_row(blob_of(row)) {
            Lookup::Found(v) => out matches Ok(Some(vote)) && vote == v,
            Lookup::Missing => out matches Ok(None),
            Lookup::Corrupt => out matches Err(StorageError::Corrupt(_)),
        },
{
    match row {
        Some(bytes) => {
            let counts = read_counts(bytes.as_slice())?;
            if counts.2 > 1 {
                return Err(StorageError::Corrupt("not a vote".to_owned()));
            }
            Ok(
                Some(
                    Vote {
                        leader_id: LeaderId { term: counts.0, node_id: counts.1 },
                        committed: counts.2 == 1,
                    },
                ),
            )
        },
        None => Ok(None),
    }
}

/// Reads the row of the last purged entry, where there is one.
pub fn read_purged_row(row: Option<Vec<u8>>) -> (out: Result<Option<LogId>, StorageError>)
    ensures
        match purged_in_row(blob_of(row)) {
            Lookup::Found(l) => out matches Ok(Some(id)) && id == l,
            Lookup::Missing => out matches Ok(None),
            Lookup::Corrupt => out matches Err(StorageError::Corrupt(_)),
        },
{
    match row {
        Some(bytes) => {
            let counts = read_counts(bytes.as_slice())?;
            Ok(
                Some(
                    LogId {
                        leader_id: LeaderId { term: counts.0, node_id: counts.1 },
                        index: counts.2,
                    },
                ),
            )
        },
        None => Ok(None),
    }
}

/// The vote and the last purged entry, as they are kept beside the log.
pub struct RaftMetadata {
    pub vote: Option<Vote>,
    pub last_purged: Option<LogId>,
}

impl RaftMetadata {
    /// Loads what is kept.
    pub fn load(storage: &Storage) -> (out: Result<Self, StorageError>)
        ensures
            match out {
                Ok(meta) => !(kept_vote(storage@) is Corrupt) && !(kept_purged(storage@) is Corrupt)
                    && meta.vote == found(kept_vote(storage@)) && meta.last_purged == found(
                    kept_purged(storage@),
                ),
                Err(StorageError::Corrupt(_)) => kept_vote(storage@) is Corrupt || kept_purged(
                    storage@,
                ) is Corrupt,
                Err(e) => e is Backend,
            },
    {
        let vote: Option<Vote> = read_vote_row(
            storage.get(TREE_RAFT_METADATA, "vote".as_bytes())?,
        )?;
        let last_purged: Option<LogId> = read_purged_row(
            storage.get(TREE_RAFT_METADATA, "last_purged".as_bytes())?,
        )?;
        Ok(RaftMetadata { vote, last_purged })
    }

    /// Keeps a vote, or forgets it.
    pub fn persist_vote(storage: &mut Storage, vote: &Option<Vote>) -> (out: Result<(), StorageError>)
        ensures
            out is Ok ==> match *vote {
                Some(v) => final(storage)@ == old(storage)@.insert(vote_at(), vote_bytes(v))
                    && kept_vote(final(storage)@) == Lookup::Found(v),
                None => final(storage)@ == old(storage)@.remove(vote_at()),
            },
            out matches Err(e) ==> e is Backend,
    {
        match vote {
            Some(v) => {
                let committed: u64 = if v.committed {
                    1
                } else {
                    0
                };
                let bytes: Vec<u8> = write_counts(
                    v.leader_id.term,
                    v.leader_id.node_id,
                    committed,
                )?;
                storage.put(TREE_RAFT_METADATA, "vote".as_bytes(), bytes.as_slice())
            },
            None => storage.delete(TREE_RAFT_METADATA, "vote".as_bytes()),
        }
    }

    /// Keeps the id of the last purged entry, or forgets it.
    pub fn persist_last_purged(&self, storage: &mut Storage) -> (out: Result<(), StorageError>)
        ensures
            out is Ok ==> match self.last_purged {
                Some(l) => final(storage)@ == old(storage)@.insert(purged_at(), log_id_bytes(l))
                    && kept_purged(final(storage)@) == Lookup::Found(l),
                None => final(storage)@ == old(storage)@.remove(purged_at()),
            },
            out matches Err(e) ==> e is Backend,
    {
        match &self.last_purged {
            Some(l) => {
                let bytes: Vec<u8> = write_counts(
                    l.leader_id.term,
                    l.leader_id.node_id,
                    l.index,
                )?;
                storage.put(TREE_RAFT_METADATA, "last_purged".as_bytes(), bytes.as_slice())
            },
            None => storage.delete(TREE_RAFT_METADATA, "last_purged".as_bytes()),
        }
    }
}

/// How far the log goes.
#[derive(Debug, Clone, Copy, PartialEq, Eq, Structural)]
pub struct LogState {
    pub last_purged_log_id: Option<LogId>,
    pub last_log_id: Option<LogId>,
}

// ---- Applying entries ----

/// The store as it stands: what storage holds, what the state machine has applied, and the
/// bookkeeping beside the log.
#[verifier::ext_equal]
pub struct MachineView {
    pub held: Held,
    pub last_applied: Option<LogId>,
    pub membership: StoredMembershipView,
    pub vote: Option<Vote>,
    pub last_purged: Option<LogId>,
}

/// The state machine and the answer after an entry; `None` where a lock cannot be read.
pub open spec fn entry_step(m: MachineView, e: EntryView<LockCommand>) -> Option<
    (MachineView, LockResponseView),
> {
    let seen = MachineView { last_applied: Some(e.log_id), ..m };
    match e.payload {
        PayloadView::Blank => Some((seen, granted())),
        PayloadView::Normal(command) => match lock_step(m.held, command) {
            Some((held, response)) => Some((MachineView { held, ..seen }, response)),
            None => None,
        },
        PayloadView::Membership(membership) => Some(
            (
                MachineView {
                    membership: StoredMembershipView { log_id: Some(e.log_id), membership },
                    ..seen
                },
                granted(),
            ),
        ),
    }
}

/// The state machine and the answers after entries in order; `None` where one failed.
pub open spec fn applied(m: MachineView, entries: Seq<EntryView<LockCommand>>) -> Option<
    (MachineView, Seq<LockResponseView>),
>
    decreases entries.len(),
{
    if entries.len() == 0 {
        Some((m, Seq::empty()))
    } else {
        match applied(m, entries.drop_last()) {
            Some((before, responses)) => match entry_step(before, entries.last()) {
                Some((after, response)) => Some((after, responses.push(response))),
                None => None,
            },
            None => None,
        }
    }
}

/// The views of a list of answers.
pub open spec fn responses_of(v: Seq<LockResponse>) -> Seq<LockResponseView> {
    Seq::new(v.len(), |i: int| v[i]@)
}

/// One entry that fails spoils the rest.
proof fn failed_entry_spoils(m: MachineView, entries: Seq<EntryView<LockCommand>>, n: int)
    requires
        0 <= n <= entries.len(),
        applied(m, entries.take(n)) is None,
    ensures
        applied(m, entries) is None,
    decreases entries.len(),
{
    if n == entries.len() {
        assert(entries.take(n) =~= entries);
    } else {
        assert(entries.drop_last().take(n) =~= entries.take(n));
        failed_entry_spoils(m, entries.drop_last(), n);
    }
}

/// Applying entries in two parts comes to the same as applying them at once: a node that stopped
/// and went on later stands where its peers stand.
pub proof fn applying_in_parts(
    m: MachineView,
    first: Seq<EntryView<LockCommand>>,
    rest: Seq<EntryView<LockCommand>>,
)
    ensures
        applied(m, first + rest) == (match applied(m, first) {
            Some((between, responses)) => match applied(between, rest) {
                Some((after, more)) => Some((after, responses + more)),
                None => None,
            },
            None => None,
        }),
    decreases rest.len(),
{
    if rest.len() == 0 {
        assert(first + rest =~= first);
        if let Some((between, responses)) = applied(m, first) {
            assert(responses + Seq::empty() =~= responses);
        }
    } else {
        assert((first + rest).drop_last() =~= first + rest.drop_last());
        applying_in_parts(m, first, rest.drop_last());
        if let Some((between, responses)) = applied(m, first) {
            if let Some((after, more)) = applied(between, rest.drop_last()) {
                if let Some((_, response)) = entry_step(after, rest.last()) {
                    assert((responses + more).push(response) =~= responses + more.push(response));
                }
            }
        }
    }
}

/// The log, the bookkeeping beside it and the state machine, over one storage.
pub struct CustodianStore {
    pub state_machine: CustodianStateMachine,
    pub raft_storage: RaftMetadata,
}

impl View for CustodianStore {
    type V = MachineView;

    open spec fn view(&self) -> MachineView {
        MachineView {
            held: self.state_machine.storage@,
            last_applied: self.state_machine.last_applied_log,
            membership: self.state_machine.last_membership@,
            vote: self.raft_storage.vote,
            last_purged: self.raft_storage.last_purged,
        }
    }
}

impl CustodianStore {
    /// Takes up what a storage keeps.
    fn over(storage: Storage) -> (out: Result<Self, StorageError>)
        ensures
            match out {
                Ok(store) => {
                    &&& store@ == (MachineView {
                        held: storage@,
                        last_applied: None,
                        membership: first_membership(),
                        vote: found(kept_vote(storage@)),
                        last_purged: found(kept_purged(storage@)),
                    })
                    &&& store.state_machine.storage == storage
                    &&& !(kept_vote(storage@) is Corrupt)
                    &&& !(kept_purged(storage@) is Corrupt)
                    &&& store.raft_storage.vote == found(kept_vote(storage@))
                    &&& store.raft_storage.last_purged == found(kept_purged(storage@))
                },
                Err(StorageError::Corrupt(_)) => kept_vote(storage@) is Corrupt || kept_purged(
                    storage@,
                ) is Corrupt,
                Err(e) => e is Backend,
            },
    {
        let raft_storage: RaftMetadata = RaftMetadata::load(&storage)?;
        Ok(CustodianStore { state_machine: CustodianStateMachine::new(storage), raft_storage })
    }

    /// Opens the store at a path, with the vote and the last purged entry that are kept there.
    pub fn new(storage_path: &str) -> (out: Result<Self, StorageError>)
        ensures
            match out {
                Ok(store) => {
                    &&& store.state_machine.storage.directory() == Some(storage_path@)
                    &&& store@.last_applied is None
                    &&& store@.membership == first_membership()
                    &&& !(kept_vote(store@.held) is Corrupt)
                    &&& !(kept_purged(store@.held) is Corrupt)
                    &&& store.raft_storage.vote == found(kept_vote(store@.held))
                    &&& store.raft_storage.last_purged == found(kept_purged(store@.held))
                },
                Err(e) => e is Backend || e is Corrupt,
            },
    {
        let storage: Storage = Storage::new(storage_path)?;
        CustodianStore::over(storage)
    }

    /// Creates an empty store that is gone when it is dropped.
    pub fn new_temp() -> (out: Result<Self, StorageError>)
        ensures
            match out {
                Ok(store) => {
                    &&& store.state_machine.storage.directory() is None
                    &&& holds_nothing(store@.held)
                    &&& store@.last_applied is None
                    &&& store@.membership == first_membership()
                    &&& store.raft_storage.vote is None
                    &&& store.raft_storage.last_purged is None
                    &&& log_sound(store@.held)
                },
                Err(e) => e is Backend,
            },
    {
        let storage: Storage = Storage::new_temp()?;
        CustodianStore::over(storage)
    }

    /// Reads the entries of the log in a range, in order.
    pub fn try_get_log_entries(&self, start: IndexBound, end: IndexBound) -> (out: Result<
        Vec<Entry<LockCommand>>,
        RaftStorageError,
    >)
        requires
            first_index(start) <= u64::MAX,
            last_index(end) matches Some(last) ==> 0 <= last,
        ensures
            match out {
                Ok(entries) => exists|list: Seq<(Seq<u8>, Seq<u8>)>|
                    is_listing(
                        self@.held,
                        TREE_RAFT_LOG@,
                        not_before(be8(first_index(start) as u64)),
                        list,
                    ) && (#[trigger] scanned(list, last_index(end), list.len()) == Scan::Going(
                        entries_of(entries@),
                    ) || scanned(list, last_index(end), list.len()) == Scan::Ended(
                        entries_of(entries@),
                    )),
                Err(e) => e.verb == ErrorVerb::Read && (e.cause is Backend || (e.cause is Corrupt
                    && exists|list: Seq<(Seq<u8>, Seq<u8>)>|
                    is_listing(
                        self@.held,
                        TREE_RAFT_LOG@,
                        not_before(be8(first_index(start) as u64)),
                        list,
                    ) && match #[trigger] scanned(list, last_index(end), list.len()) {
                        Scan::BadKey => e.subject == ErrorSubject::Log(no_log_id()),
                        Scan::BadEntry(index) => e.subject == ErrorSubject::Log(
                            LogId { leader_id: LeaderId { term: 0, node_id: 0 }, index },
                        ),
                        _ => false,
                    })),
            },
            log_sound(self@.held) ==> match out {
                Ok(entries) => is_log_range(
                    self@.held,
                    first_index(start),
                    last_index(end),
                    entries_of(entries@),
                ),
                Err(e) => e.cause is Backend,
            },
    {
        read_log(&self.state_machine.storage, start, end)
    }

    /// Keeps a vote.
    pub fn save_vote(&mut self, vote: &Vote) -> (out: Result<(), RaftStorageError>)
        ensures
            final(self).raft_storage.vote == Some(*vote),
            final(self).raft_storage.last_purged == old(self).raft_storage.last_purged,
            out is Ok ==> final(self)@ == (MachineView {
                held: old(self)@.held.insert(vote_at(), vote_bytes(*vote)),
                vote: Some(*vote),
                ..old(self)@
            }) && kept_vote(final(self)@.held) == Lookup::Found(*vote),
            out matches Err(e) ==> e.subject == ErrorSubject::Vote && e.verb == ErrorVerb::Write
                && e.cause is Backend,
    {
        self.raft_storage.vote = Some(*vote);
        match RaftMetadata::persist_vote(&mut self.state_machine.storage, &Some(*vote)) {
            Ok(()) => Ok(()),
            Err(e) => Err(vote_write(e)),
        }
    }

    /// The vote that was kept last.
    pub fn read_vote(&self) -> (out: Option<Vote>)
        ensures
            out == self.raft_storage.vote,
    {
        self.raft_storage.vote
    }

    /// Appends entries to the log; an entry takes the place of one with its index.
    pub fn append_to_log(&mut self, entries: &Vec<Entry<LockCommand>>) -> (out: Result<
        (),
        RaftStorageError,
    >)
        ensures
            final(self).raft_storage == old(self).raft_storage,
            out is Ok ==> {
                &&& final(self)@ == (MachineView {
                    held: after_writes(
                        old(self)@.held,
                        TREE_RAFT_LOG@,
                        entry_writes(entries_of(entries@)),
                    ),
                    ..old(self)@
                })
                &&& log_sound(old(self)@.held) ==> log_sound(final(self)@.held)
                &&& forall|i: int|
                    0 <= i < entries@.len() && is_last_of_index(entries_of(entries@), i) ==> logged(
                        final(self)@.held,
                        (#[trigger] entries@[i]).log_id.index,
                    ) == Some(entries@[i]@)
            },
            out matches Err(e) ==> e.verb == ErrorVerb::Write && e.cause is Backend && e.subject
                == ErrorSubject::Log(
                if entries@.len() == 0 {
                    no_log_id()
                } else {
                    entries@.last().log_id
                },
            ),
    {
        let mut batch: sled::Batch = store::new_batch();
        let mut last_log_id: LogId = LogId::default();
        let ghost all = entries_of(entries@);
        let mut i: usize = 0;
        assert(all.take(0) =~= Seq::empty());
        while i < entries.len()
            invariant
                i <= entries@.len(),
                all == entries_of(entries@),
                batch_writes(batch) == entry_writes(all.take(i as int)),
                all_readable(all.take(i as int)),
                last_log_id == (if i == 0 {
                    no_log_id()
                } else {
                    entries@[i - 1].log_id
                }),
                *self == *old(self),
            decreases entries@.len() - i,
        {
            last_log_id = entries[i].log_id;
            let key: Vec<u8> = to_be8(entries[i].log_id.index);
            match entries[i].encode() {
                Ok(value) => {
                    store::batch_insert(&mut batch, key.as_slice(), value.as_slice());
                },
                Err(text) => {
                    return Err(log_w(last_log_id, StorageError::Corrupt(text)));
                },
            }
            proof {
                let longer = all.take(i + 1);
                assert(longer.drop_last() =~= all.take(i as int));
                assert(longer.last() == entries@[i as int]@);
                assert forall|j: int| 0 <= j < longer.len() implies entry_in::<LockCommand>(
                    entry_bytes::<LockCommand>(#[trigger] longer[j]),
                ) == Some(longer[j]) by {
                    if j < i {
                        assert(all.take(i as int)[j] == longer[j]);
                    }
                }
            }
            i = i + 1;
        }
        assert(all.take(i as int) =~= all);
        match self.state_machine.storage.write_batch(TREE_RAFT_LOG, batch) {
            Ok(()) => {},
            Err(e) => {
                return Err(log_w(last_log_id, e));
            },
        }
        proof {
            entry_writes_hold(all);
            let held = self@.held;
            assert forall|j: int| 0 <= j < entries@.len() && is_last_of_index(all, j) implies logged(
                held,
                (#[trigger] entries@[j]).log_id.index,
            ) == Some(entries@[j]@) by {
                assert(all[j] == entries@[j]@);
                assert(entry_writes(all).contains_key(be8(all[j].log_id.index)));
            }
            if log_sound(old(self)@.held) {
                assert forall|key: Seq<u8>| #[trigger] held.contains_key((TREE_RAFT_LOG@, key)) implies key.len()
                    == 8 && (entry_in::<LockCommand>(held[(TREE_RAFT_LOG@, key)]) matches Some(entry)
                    && entry.log_id.index == from_be8(key)) by {
                    if entry_writes(all).contains_key(key) {
                    } else {
                        assert(old(self)@.held.contains_key((TREE_RAFT_LOG@, key)));
                    }
                }
            }
        }
        Ok(())
    }

    /// Removes the entries of the log that `pairs` lists.
    fn remove_entries(&mut self, pairs: &Vec<(Vec<u8>, Vec<u8>)>, id: LogId) -> (out: Result<
        (),
        RaftStorageError,
    >)
        ensures
            final(self).raft_storage == old(self).raft_storage,
            out is Ok ==> final(self)@ == (MachineView {
                held: log_cut(
                    old(self)@.held,
                    |key: Seq<u8>| exists|i: int| 0 <= i < pairs@.len() && (#[trigger] pairs@[i]).0@ == key,
                ),
                ..old(self)@
            }),
            out matches Err(e) ==> e.verb == ErrorVerb::Write && e.cause is Backend && e.subject
                == ErrorSubject::Log(id),
    {
        let mut batch: sled::Batch = store::new_batch();
        let mut i: usize = 0;
        while i < pairs.len()
            invariant
                i <= pairs@.len(),
                *self == *old(self),
                forall|key: Seq<u8>| #[trigger]
                    batch_writes(batch).contains_key(key) <==> exists|j: int|
                        0 <= j < i && (#[trigger] pairs@[j]).0@ == key,
                forall|key: Seq<u8>| #[trigger]
                    batch_writes(batch).contains_key(key) ==> batch_writes(batch)[key] is None,
            decreases pairs@.len() - i,
        {
            let ghost before = batch_writes(batch);
            store::batch_remove(&mut batch, pairs[i].0.as_slice());
            proof {
                assert forall|key: Seq<u8>| #[trigger]
                    batch_writes(batch).contains_key(key) <==> exists|j: int|
                        0 <= j < i + 1 && (#[trigger] pairs@[j]).0@ == key by {
                    if before.contains_key(key) {
                        let j = choose|j: int| 0 <= j < i && (#[trigger] pairs@[j]).0@ == key;
                        assert(pairs@[j].0@ == key);
                    }
                    if key == pairs@[i as int].0@ {
                        assert(pairs@[i as int].0@ == key);
                    }
                }
            }
            i = i + 1;
        }
        let ghost rule = |key: Seq<u8>|
            exists|j: int| 0 <= j < pairs@.len() && (#[trigger] pairs@[j]).0@ == key;
        match self.state_machine.storage.write_batch(TREE_RAFT_LOG, batch) {
            Ok(()) => {
                assert(self@.held =~= log_cut(old(self)@.held, rule));
                Ok(())
            },
            Err(e) => Err(log_w(id, e)),
        }
    }

    /// Removes the entries of the log from `log_id` on.
    pub fn delete_conflict_logs_since(&mut self, log_id: LogId) -> (out: Result<
        (),
        RaftStorageError,
    >)
        ensures
            final(self).raft_storage == old(self).raft_storage,
            out is Ok ==> final(self)@ == (MachineView {
                held: log_cut(old(self)@.held, not_before(be8(log_id.index))),
                ..old(self)@
            }),
            out matches Err(e) ==> e.verb == ErrorVerb::Write && e.cause is Backend && e.subject
                == ErrorSubject::Log(log_id),
    {
        let key: Vec<u8> = to_be8(log_id.index);
        let pairs: Vec<(Vec<u8>, Vec<u8>)> = match self.state_machine.storage.list_from(
            TREE_RAFT_LOG,
            key.as_slice(),
        ) {
            Ok(pairs) => pairs,
            Err(e) => {
                return Err(log_w(log_id, e));
            },
        };
        let ghost before = self@;
        match self.remove_entries(&pairs, log_id) {
            Ok(()) => {},
            Err(e) => {
                return Err(e);
            },
        }
        proof {
            listed_entries_are_cut(before.held, not_before(be8(log_id.index)), pairs@);
        }
        Ok(())
    }

    /// Removes the entries of the log through `log_id`, and keeps that they are gone.
    pub fn purge_logs_upto(&mut self, log_id: LogId) -> (out: Result<(), RaftStorageError>)
        ensures
            final(self).raft_storage.vote == old(self).raft_storage.vote,
            out is Ok ==> {
                &&& final(self).raft_storage.last_purged == Some(log_id)
                &&& final(self)@ == (MachineView {
                    held: log_cut(old(self)@.held, not_after(be8(log_id.index))).insert(
                        purged_at(),
                        log_id_bytes(log_id),
                    ),
                    last_purged: Some(log_id),
                    ..old(self)@
                })
                &&& kept_purged(final(self)@.held) == Lookup::Found(log_id)
            },
            out matches Err(e) ==> e.verb == ErrorVerb::Write && e.cause is Backend && e.subject
                == ErrorSubject::Log(log_id),
    {
        let key: Vec<u8> = to_be8(log_id.index);
        let pairs: Vec<(Vec<u8>, Vec<u8>)> = match self.state_machine.storage.list_through(
            TREE_RAFT_LOG,
            key.as_slice(),
        ) {
            Ok(pairs) => pairs,
            Err(e) => {
                return Err(log_w(log_id, e));
            },
        };
        let ghost before = self@;
        match self.remove_entries(&pairs, log_id) {
            Ok(()) => {},
            Err(e) => {
                return Err(e);
            },
        }
        proof {
            listed_entries_are_cut(before.held, not_after(be8(log_id.index)), pairs@);
        }
        self.raft_storage.last_purged = Some(log_id);
        match self.raft_storage.persist_last_purged(&mut self.state_machine.storage) {
            Ok(()) => Ok(()),
            Err(e) => Err(log_w(log_id, e)),
        }
    }

    /// What the state machine has applied last, and the members it knows.
    pub fn last_applied_state(&self) -> (out: (Option<LogId>, StoredMembership))
        ensures
            out.0 == self@.last_applied,
            out.1@ == self@.membership,
    {
        (self.state_machine.last_applied_log, self.state_machine.last_membership.copy())
    }

    /// Applies entries to the state machine in order, and answers each.
    pub fn apply_to_state_machine(&mut self, entries: &Vec<Entry<LockCommand>>) -> (out: Result<
        Vec<LockResponse>,
        RaftStorageError,
    >)
        ensures
            final(self).raft_storage == old(self).raft_storage,
            match out {
                Ok(responses) => applied(old(self)@, entries_of(entries@)) == Some(
                    (final(self)@, responses_of(responses@)),
                ),
                Err(e) => e.subject == ErrorSubject::StateMachine && e.verb == ErrorVerb::Write && (
                e.cause is Backend || (e.cause is Corrupt && applied(
                    old(self)@,
                    entries_of(entries@),
                ) is None)),
            },
            (forall|i: int| 0 <= i < entries@.len() ==> !((#[trigger] entries@[i]).payload is Normal))
                ==> out is Ok,
    {
        let mut responses: Vec<LockResponse> = Vec::new();
        let ghost all = entries_of(entries@);
        let mut i: usize = 0;
        assert(all.take(0) =~= Seq::empty());
        assert(responses_of(responses@) =~= Seq::empty());
        while i < entries.len()
            invariant
                i <= entries@.len(),
                all == entries_of(entries@),
                self.raft_storage == old(self).raft_storage,
                applied(old(self)@, all.take(i as int)) == Some(
                    (self@, responses_of(responses@)),
                ),
            decreases entries@.len() - i,
        {
            let entry = &entries[i];
            let ghost before = self@;
            let ghost answered = responses_of(responses@);
            proof {
                assert(all.take(i + 1).drop_last() =~= all.take(i as int));
                assert(all.take(i + 1).last() == entry@);
                if entry_step(before, entry@) is None {
                    failed_entry_spoils(old(self)@, all, i + 1);
                }
            }
            self.state_machine.last_applied_log = Some(entry.log_id);
            let response: LockResponse = match &entry.payload {
                EntryPayload::Blank => grant(),
                EntryPayload::Normal(command) => match self.state_machine.apply(command) {
                    Ok(response) => response,
                    Err(e) => {
                        assert(entries@[i as int].payload is Normal);
                        return Err(sm_write(e));
                    },
                },
                EntryPayload::Membership(membership) => {
                    self.state_machine.last_membership = StoredMembership {
                        log_id: Some(entry.log_id),
                        membership: membership.copy(),
                    };
                    grant()
                },
            };
            let ghost said = response@;
            responses.push(response);
            proof {
                assert(responses_of(responses@) =~= answered.push(said));
                let (stepped, _) = entry_step(before, entry@)->0;
                assert(self@ =~= stepped);
            }
            i = i + 1;
        }
        assert(all.take(i as int) =~= all);
        Ok(responses)
    }

    /// How far the log goes: its last entry, and the last one that was purged.
    pub fn get_log_state(&self) -> (out: Result<LogState, RaftStorageError>)
        ensures
            match out {
                Ok(state) => state.last_purged_log_id == self.raft_storage.last_purged && exists|
                    list: Seq<(Seq<u8>, Seq<u8>)>,
                |
                    is_listing(self@.held, TREE_RAFT_LOG@, store::any_key(), list) && #[trigger] last_of(
                        list,
                    ) == Lookup::Found(state.last_log_id),
                Err(e) => e.verb == ErrorVerb::Read && e.subject == ErrorSubject::Log(no_log_id())
                    && (e.cause is Backend || (e.cause is Corrupt && exists|
                    list: Seq<(Seq<u8>, Seq<u8>)>,
                |
                    is_listing(self@.held, TREE_RAFT_LOG@, store::any_key(), list) && #[trigger] last_of(
                        list,
                    ) is Corrupt)),
            },
            log_sound(self@.held) ==> match out {
                Ok(state) => is_last_log_id(self@.held, state.last_log_id),
                Err(e) => e.cause is Backend,
            },
    {
        let empty: Vec<u8> = Vec::new();
        let pairs: Vec<(Vec<u8>, Vec<u8>)> = match self.state_machine.storage.list(
            TREE_RAFT_LOG,
            empty.as_slice(),
            None,
        ) {
            Ok(pairs) => pairs,
            Err(e) => {
                return Err(log_read(e));
            },
        };
        let ghost list = pairs_of(pairs@);
        proof {
            let all = choose|all: Seq<(Seq<u8>, Seq<u8>)>|
                is_listing(self@.held, TREE_RAFT_LOG@, store::starting_with(empty@), all) && list
                    == #[trigger] crate::db::storage::at_most(all, None);
            assert forall|key: Seq<u8>| #[trigger] store::starting_with(empty@)(key)
                == store::any_key()(key) by {
                assert(empty@ =~= key.take(0));
            }
            crate::db::storage::listing_by_same_rule(
                self@.held,
                TREE_RAFT_LOG@,
                store::starting_with(empty@),
                store::any_key(),
                all,
            );
            if log_sound(self@.held) {
                last_of_sound_log(self@.held, list);
            }
        }
        let last_log_id: Option<LogId> = match last_log_id(&pairs) {
            Ok(last_log_id) => last_log_id,
            Err(e) => {
                return Err(log_read(e));
            },
        };
        assert(last_of(list) == Lookup::Found(last_log_id));
        Ok(LogState { last_purged_log_id: self.raft_storage.last_purged, last_log_id })
    }
}

/// Reads the log id of the last entry of a listing of the log.
pub fn last_log_id(pairs: &Vec<(Vec<u8>, Vec<u8>)>) -> (out: Result<Option<LogId>, StorageError>)
    ensures
        match last_of(pairs_of(pairs@)) {
            Lookup::Found(last) => out matches Ok(l) && l == last,
            _ => out matches Err(StorageError::Corrupt(_)),
        },
{
    if pairs.len() == 0 {
        Ok(None)
    } else {
        match Entry::<LockCommand>::decode(pairs[pairs.len() - 1].1.as_slice()) {
            Ok(entry) => Ok(Some(entry.log_id)),
            Err(text) => Err(StorageError::Corrupt(text)),
        }
    }
}

/// The log id of the last entry of a listing.
pub open spec fn last_of(list: Seq<(Seq<u8>, Seq<u8>)>) -> Lookup<Option<LogId>> {
    if list.len() == 0 {
        Lookup::Found(None)
    } else {
        match entry_in::<LockCommand>(list.last().1) {
            Some(entry) => Lookup::Found(Some(entry.log_id)),
            None => Lookup::Corrupt,
        }
    }
}

/// The log ends with the given entry, or is empty.
pub open spec fn is_last_log_id(held: Held, last: Option<LogId>) -> bool {
    match last {
        Some(id) => (logged(held, id.index) matches Some(entry) && entry.log_id == id) && (forall|
            index: u64,
        | #[trigger] held.contains_key(entry_at(index)) ==> index <= id.index),
        None => forall|index: u64| !(#[trigger] held.contains_key(entry_at(index))),
    }
}

/// The last entry of a sound log's listing is the one with the greatest index.
proof fn last_of_sound_log(held: Held, list: Seq<(Seq<u8>, Seq<u8>)>)
    requires
        log_sound(held),
        is_listing(held, TREE_RAFT_LOG@, store::any_key(), list),
    ensures
        last_of(list) matches Lookup::Found(last) && is_last_log_id(held, last),
{
    if list.len() > 0 {
        let n = list.len() - 1;
        let at = (TREE_RAFT_LOG@, list[n].0);
        assert(store::any_key()(list[n].0));
        assert(held.contains_pair(at, list[n].1) && held.contains_key(at));
        from_be8_round_trip(list[n].0);
        let last = from_be8(list[n].0);
        assert forall|index: u64| #[trigger] held.contains_key(entry_at(index)) implies index <= last by {
            assert(store::any_key()(be8(index)));
            assert(held.dom().contains((TREE_RAFT_LOG@, be8(index))));
            let i = choose|i: int| 0 <= i < list.len() && (#[trigger] list[i]).0 == be8(index);
            if i < n {
                assert(lex_lt(list[i].0, list[n].0));
                be8_order(index, last);
            } else {
                be8_round_trip(index);
            }
        }
    } else {
        assert forall|index: u64| !(#[trigger] held.contains_key(entry_at(index))) by {
            if held.contains_key(entry_at(index)) {
                assert(store::any_key()(be8(index)));
                assert(held.dom().contains((TREE_RAFT_LOG@, be8(index))));
            }
        }
    }
}

/// Removing what a listing by a rule holds cuts the log by that rule.
proof fn listed_entries_are_cut(
    held: Held,
    rule: spec_fn(Seq<u8>) -> bool,
    pairs: Seq<(Vec<u8>, Vec<u8>)>,
)
    requires
        is_listing(held, TREE_RAFT_LOG@, rule, pairs_of(pairs)),
    ensures
        log_cut(
            held,
            |key: Seq<u8>| exists|i: int| 0 <= i < pairs.len() && (#[trigger] pairs[i]).0@ == key,
        ) == log_cut(held, rule),
{
    let list = pairs_of(pairs);
    let listed = |key: Seq<u8>| exists|i: int| 0 <= i < pairs.len() && (#[trigger] pairs[i]).0@ == key;
    assert forall|at: (Seq<char>, Seq<u8>)| held.contains_key(at) && at.0 == TREE_RAFT_LOG@ implies (
    #[trigger] listed(at.1)) == rule(at.1) by {
        if rule(at.1) {
            assert(held.dom().contains((TREE_RAFT_LOG@, at.1)));
            let i = choose|i: int| 0 <= i < list.len() && (#[trigger] list[i]).0 == at.1;
            assert(pairs[i].0@ == at.1);
        }
        if listed(at.1) {
            let i = choose|i: int| 0 <= i < pairs.len() && (#[trigger] pairs[i]).0@ == at.1;
            assert(list[i].0 == at.1);
        }
    }
    assert(log_cut(held, listed) =~= log_cut(held, rule));
}

// ---- Laws ----

/// Cutting a sound log from an index on leaves exactly the entries before it.
pub proof fn conflicting_entries_are_gone(held: Held, from: u64, index: u64)
    ensures
        logged(log_cut(held, not_before(be8(from))), index) == (if index < from {
            logged(held, index)
        } else {
            None
        }),
        log_sound(held) ==> log_sound(log_cut(held, not_before(be8(from)))),
{
    be8_order(index, from);
    let now = log_cut(held, not_before(be8(from)));
    assert forall|key: Seq<u8>| #[trigger] now.contains_key((TREE_RAFT_LOG@, key)) implies held.contains_key(
        (TREE_RAFT_LOG@, key),
    ) by {}
}

/// Purging a sound log through an index leaves exactly the entries after it.
pub proof fn purged_entries_are_gone(held: Held, upto: u64, index: u64)
    ensures
        logged(log_cut(held, not_after(be8(upto))), index) == (if index > upto {
            logged(held, index)
        } else {
            None
        }),
        log_sound(held) ==> log_sound(log_cut(held, not_after(be8(upto)))),
{
    be8_order(upto, index);
    let now = log_cut(held, not_after(be8(upto)));
    assert forall|key: Seq<u8>| #[trigger] now.contains_key((TREE_RAFT_LOG@, key)) implies held.contains_key(
        (TREE_RAFT_LOG@, key),
    ) by {}
}

/// Work on the log and its bookkeeping leaves every lock as it is.
pub proof fn log_work_keeps_locks(
    held: Held,
    writes: Map<Seq<u8>, Option<Seq<u8>>>,
    rule: spec_fn(Seq<u8>) -> bool,
    key: Seq<u8>,
    value: Seq<u8>,
    ticket_id: u64,
)
    ensures
        lookup_lock(after_writes(held, TREE_RAFT_LOG@, writes), ticket_id) == lookup_lock(
            held,
            ticket_id,
        ),
        lookup_lock(log_cut(held, rule), ticket_id) == lookup_lock(held, ticket_id),
        lookup_lock(held.insert((TREE_RAFT_METADATA@, key), value), ticket_id) == lookup_lock(
            held,
            ticket_id,
        ),
{
    reveal_strlit("locks");
    reveal_strlit("raft_log");
    reveal_strlit("raft_metadata");
    assert(TREE_LOCKS@.len() == 5);
    assert(TREE_RAFT_LOG@.len() == 8);
    assert(TREE_RAFT_METADATA@.len() == 13);
}

} // verus!
