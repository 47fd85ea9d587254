//! The replicated log: what is appended is read, what is cut off is gone, and a snapshot carries
//! the data over.

use vstd::prelude::*;
use vstd::utf8::encode_utf8;

use crate::bytes::{be8, be8_injective, read_be8};
use crate::custodian::db_client::{
    create_ticket_write, get_ticket_outcome, put_reply, soft_delete_lookup, update_ticket_write,
};
use crate::custodian::locks::{CustodianStateMachine, LockCommand, LockResponse};
use crate::custodian::log_store::{
    conflicting_entries_are_gone, last_log_id, log_sound, purged_entries_are_gone, read_log,
    read_purged_row, read_vote_row, scan_entries, CustodianStore, ErrorSubject, ErrorVerb,
    IndexBound, LogState, RaftMetadata, RaftStorageError,
};
use crate::custodian::metrics::{count_gauge, init_metrics, SnapshotMetrics};
use crate::custodian::snapshot::{dump_collections, is_snapshot, replace_collections, Snapshot};
use crate::db::server::{GetReply, TicketLookup, TicketRecord, TicketWrite, WireTicketIndex};
use crate::db::storage::{Storage, StorageError};
use crate::laws::storage::gets;
use crate::raft::types::{
    entries_of, Entry, EntryPayload, LogId, Membership, SnapshotMeta, StoredMembership, Vote,
};
use crate::status::{Code, Status};
use crate::text::{blob_of, dec, text_of, texts_of, utf8_injective};

verus! {

/// The store gives the entries at an index: one, or none.
pub open spec fn reads(store: CustodianStore, index: u64, entries: Vec<Entry<LockCommand>>) -> bool {
    call_ensures(
        CustodianStore::try_get_log_entries,
        (&store, IndexBound::Included(index), IndexBound::Included(index)),
        Ok::<Vec<Entry<LockCommand>>, RaftStorageError>(entries),
    )
}

/// Two readings of an index give the same.
pub open spec fn same_reading(a: Vec<Entry<LockCommand>>, b: Vec<Entry<LockCommand>>) -> bool {
    &&& a@.len() == b@.len()
    &&& a@.len() > 0 ==> a@[0]@ == b@[0]@
}

// ---- Votes ----

proof fn bookkeeping_apart()
    ensures
        crate::custodian::log_store::vote_at() != crate::custodian::log_store::purged_at(),
        crate::db::storage::TREE_RAFT_METADATA@ != crate::db::storage::TREE_RAFT_LOG@,
{
    reveal_strlit("vote");
    reveal_strlit("last_purged");
    reveal_strlit("raft_metadata");
    reveal_strlit("raft_log");
    assert("vote"@.len() != "last_purged"@.len());
    if encode_utf8("vote"@) == encode_utf8("last_purged"@) {
        utf8_injective("vote"@, "last_purged"@);
    }
    assert("raft_metadata"@.len() != "raft_log"@.len());
}

/// A vote that was saved is the vote that is read, now and when the store is taken up again. What
/// was purged stays as it was.
pub proof fn a_saved_vote_is_read(
    store: &mut CustodianStore,
    vote: Vote,
    read: Option<Vote>,
    before: RaftMetadata,
    after: RaftMetadata,
)
    requires
        call_ensures(CustodianStore::save_vote, (store, &vote), Ok::<(), RaftStorageError>(())),
        call_ensures(CustodianStore::read_vote, (final(store),), read),
        call_ensures(
            RaftMetadata::load,
            (&old(store).state_machine.storage,),
            Ok::<RaftMetadata, StorageError>(before),
        ),
        call_ensures(
            RaftMetadata::load,
            (&final(store).state_machine.storage,),
            Ok::<RaftMetadata, StorageError>(after),
        ),
    ensures
        read == Some(vote),
        after.vote == Some(vote),
        after.last_purged == before.last_purged,
{
    bookkeeping_apart();
}

/// What is kept of a vote and of what was purged is loaded again; what is forgotten is not.
pub proof fn bookkeeping_is_loaded(
    s: &mut Storage,
    t: &mut Storage,
    vote: Option<Vote>,
    meta: RaftMetadata,
    voted: RaftMetadata,
    purged: RaftMetadata,
    before: RaftMetadata,
)
    requires
        *old(t) == *old(s),
        call_ensures(RaftMetadata::load, (old(s),), Ok::<RaftMetadata, StorageError>(before)),
        call_ensures(RaftMetadata::persist_vote, (s, &vote), Ok::<(), StorageError>(())),
        call_ensures(RaftMetadata::load, (final(s),), Ok::<RaftMetadata, StorageError>(voted)),
        call_ensures(RaftMetadata::persist_last_purged, (&meta, t), Ok::<(), StorageError>(())),
        call_ensures(RaftMetadata::load, (final(t),), Ok::<RaftMetadata, StorageError>(purged)),
    ensures
        voted.vote == vote && voted.last_purged == before.last_purged,
        purged.last_purged == meta.last_purged && purged.vote == before.vote,
{
    bookkeeping_apart();
}

/// A new store has voted for nobody, purged nothing and applied nothing, and its log is empty.
pub proof fn a_new_store_is_empty(
    store: CustodianStore,
    vote: Option<Vote>,
    state: LogState,
    index: u64,
    entries: Vec<Entry<LockCommand>>,
    applied: (Option<LogId>, StoredMembership),
)
    requires
        call_ensures(CustodianStore::new_temp, (), Ok::<CustodianStore, StorageError>(store)),
        call_ensures(CustodianStore::read_vote, (&store,), vote),
        call_ensures(
            CustodianStore::get_log_state,
            (&store,),
            Ok::<LogState, RaftStorageError>(state),
        ),
        reads(store, index, entries),
        call_ensures(CustodianStore::last_applied_state, (&store,), applied),
    ensures
        vote is None,
        state.last_purged_log_id is None && state.last_log_id is None,
        entries@.len() == 0,
        applied.0 is None && applied.1.log_id is None,
        applied.1.membership.node_ids@.len() == 0,
{
    if entries@.len() > 0 {
        assert(entries_of(entries@)[0].log_id.index <= index);
    }
}

// ---- Entries ----

/// A reading of one index gives what the log holds there.
proof fn reading_is_what_is_logged(store: CustodianStore, index: u64, entries: Vec<Entry<LockCommand>>)
    requires
        log_sound(store@.held),
        reads(store, index, entries),
    ensures
        entries@.len() <= 1,
        entries@.len() == 1 ==> crate::custodian::log_store::logged(store@.held, index) == Some(
            entries@[0]@,
        ) && entries@[0].log_id.index == index,
        entries@.len() == 0 ==> crate::custodian::log_store::logged(store@.held, index) is None
            && !store@.held.contains_key(crate::custodian::log_store::entry_at(index)),
{
    let all = entries_of(entries@);
    assert(all.len() == entries@.len());
    if all.len() > 1 {
        assert(all[0].log_id.index < all[1].log_id.index);
        assert(index <= all[0].log_id.index && all[1].log_id.index <= index);
    }
    if all.len() == 1 {
        assert(all[0].log_id.index == index);
    }
    if all.len() == 0 && store@.held.contains_key(crate::custodian::log_store::entry_at(index)) {
        let i = choose|i: int| 0 <= i < all.len() && (#[trigger] all[i]).log_id.index == index;
        assert(all[i].log_id.index == index);
    }
}

/// An appended entry is read at its index, the last one of an index that occurs twice; at other
/// indexes nothing changes.
pub proof fn appended_entries_are_read(
    store: &mut CustodianStore,
    entries: Vec<Entry<LockCommand>>,
    index: u64,
    before: Vec<Entry<LockCommand>>,
    after: Vec<Entry<LockCommand>>,
    i: int,
)
    requires
        log_sound(old(store)@.held),
        call_ensures(
            CustodianStore::append_to_log,
            (store, &entries),
            Ok::<(), RaftStorageError>(()),
        ),
        reads(*old(store), index, before),
        reads(*final(store), index, after),
    ensures
        after@.len() <= 1,
        0 <= i < entries@.len() && entries@[i].log_id.index == index && (forall|j: int|
            i < j < entries@.len() ==> (#[trigger] entries@[j]).log_id.index != index) ==> after@.len()
            == 1 && after@[0]@ == entries@[i]@,
        (forall|j: int| 0 <= j < entries@.len() ==> (#[trigger] entries@[j]).log_id.index != index)
            ==> same_reading(before, after),
{
    reading_is_what_is_logged(*old(store), index, before);
    reading_is_what_is_logged(*final(store), index, after);
    let all = entries_of(entries@);
    if 0 <= i < entries@.len() && entries@[i].log_id.index == index && (forall|j: int|
        i < j < entries@.len() ==> (#[trigger] entries@[j]).log_id.index != index) {
        assert forall|j: int| i < j < all.len() implies (#[trigger] all[j]).log_id.index
            != all[i].log_id.index by {
            assert(entries@[j].log_id.index != index);
        }
        assert(crate::custodian::log_store::is_last_of_index(all, i));
        assert(entries@[i].log_id.index == index);
    }
    if forall|j: int| 0 <= j < entries@.len() ==> (#[trigger] entries@[j]).log_id.index != index {
        assert forall|j: int| 0 <= j < all.len() implies (#[trigger] all[j]).log_id.index != index by {
            assert(entries@[j].log_id.index != index);
        }
        not_written(all, index);
    }
}

proof fn not_written(entries: Seq<crate::raft::types::EntryView<LockCommand>>, index: u64)
    requires
        forall|j: int| 0 <= j < entries.len() ==> (#[trigger] entries[j]).log_id.index != index,
    ensures
        !crate::custodian::log_store::entry_writes(entries).contains_key(be8(index)),
    decreases entries.len(),
{
    if entries.len() > 0 {
        let rest = entries.drop_last();
        assert forall|j: int| 0 <= j < rest.len() implies (#[trigger] rest[j]).log_id.index != index by {
            assert(rest[j] == entries[j]);
        }
        not_written(rest, index);
        assert(entries[entries.len() - 1].log_id.index != index);
        if be8(entries.last().log_id.index) == be8(index) {
            be8_injective(entries.last().log_id.index, index);
        }
    }
}

/// Cutting conflicting entries off takes away the entries from the given one on and leaves those
/// before it; purging takes away the entries through the given one and leaves those after it.
pub proof fn cut_entries_are_gone(
    store: &mut CustodianStore,
    purged: &mut CustodianStore,
    log_id: LogId,
    index: u64,
    before: Vec<Entry<LockCommand>>,
    cut: Vec<Entry<LockCommand>>,
    left: Vec<Entry<LockCommand>>,
)
    requires
        log_sound(old(store)@.held),
        *old(purged) == *old(store),
        call_ensures(
            CustodianStore::delete_conflict_logs_since,
            (store, log_id),
            Ok::<(), RaftStorageError>(()),
        ),
        call_ensures(
            CustodianStore::purge_logs_upto,
            (purged, log_id),
            Ok::<(), RaftStorageError>(()),
        ),
        reads(*old(store), index, before),
        reads(*final(store), index, cut),
        reads(*final(purged), index, left),
    ensures
        index >= log_id.index ==> cut@.len() == 0,
        index < log_id.index ==> same_reading(before, cut),
        index <= log_id.index ==> left@.len() == 0,
        index > log_id.index ==> same_reading(before, left),
{
    bookkeeping_apart();
    let held = old(store)@.held;
    conflicting_entries_are_gone(held, log_id.index, index);
    purged_entries_are_gone(held, log_id.index, index);
    let now = final(purged)@.held;
    let short = crate::custodian::log_store::log_cut(
        held,
        crate::store::not_after(be8(log_id.index)),
    );
    assert forall|key: Seq<u8>| #[trigger]
        now.contains_key((crate::db::storage::TREE_RAFT_LOG@, key)) implies short.contains_key(
        (crate::db::storage::TREE_RAFT_LOG@, key),
    ) && now[(crate::db::storage::TREE_RAFT_LOG@, key)] == short[(
        crate::db::storage::TREE_RAFT_LOG@,
        key,
    )] by {}
    assert(log_sound(now)) by {
        assert forall|key: Seq<u8>| #[trigger]
            now.contains_key((crate::db::storage::TREE_RAFT_LOG@, key)) implies key.len() == 8 && (
        crate::raft::codec::entry_in::<LockCommand>(
            now[(crate::db::storage::TREE_RAFT_LOG@, key)],
        ) matches Some(entry) && entry.log_id.index == crate::bytes::from_be8(key)) by {
            assert(short.contains_key((crate::db::storage::TREE_RAFT_LOG@, key)));
        }
    }
    reading_is_what_is_logged(*old(store), index, before);
    reading_is_what_is_logged(*final(store), index, cut);
    reading_is_what_is_logged(*final(purged), index, left);
    assert(crate::custodian::log_store::logged(now, index)
        == crate::custodian::log_store::logged(short, index));
}

/// Entries of a range are read in order, each as it is read alone; none of the range is missing.
pub proof fn a_range_is_read(
    store: CustodianStore,
    start: IndexBound,
    end: IndexBound,
    entries: Vec<Entry<LockCommand>>,
    index: u64,
    one: Vec<Entry<LockCommand>>,
    i: int,
    j: int,
)
    requires
        log_sound(store@.held),
        call_ensures(
            CustodianStore::try_get_log_entries,
            (&store, start, end),
            Ok::<Vec<Entry<LockCommand>>, RaftStorageError>(entries),
        ),
        reads(store, index, one),
    ensures
        0 <= i < j < entries@.len() ==> entries@[i].log_id.index < entries@[j].log_id.index,
        0 <= i < entries@.len() ==> {
            &&& start matches IndexBound::Included(n) ==> n <= entries@[i].log_id.index
            &&& start matches IndexBound::Excluded(n) ==> n < entries@[i].log_id.index
            &&& end matches IndexBound::Included(n) ==> entries@[i].log_id.index <= n
            &&& end matches IndexBound::Excluded(n) ==> entries@[i].log_id.index < n
            &&& entries@[i].log_id.index == index ==> one@.len() == 1 && one@[0]@ == entries@[i]@
        },
        one@.len() == 1 && (match start {
            IndexBound::Included(n) => n <= index,
            IndexBound::Excluded(n) => n < index,
            IndexBound::Unbounded => true,
        }) && (match end {
            IndexBound::Included(n) => index <= n,
            IndexBound::Excluded(n) => index < n,
            IndexBound::Unbounded => true,
        }) ==> exists|k: int|
            0 <= k < entries@.len() && (#[trigger] entries@[k]).log_id.index == index,
{
    reading_is_what_is_logged(store, index, one);
    let all = entries_of(entries@);
    assert(all.len() == entries@.len());
    if 0 <= i < j < entries@.len() {
        assert(all[i].log_id.index < all[j].log_id.index);
    }
    if 0 <= i < entries@.len() {
        assert(all[i].log_id.index == entries@[i].log_id.index);
    }
    if one@.len() == 1 && (match start {
        IndexBound::Included(n) => n <= index,
        IndexBound::Excluded(n) => n < index,
        IndexBound::Unbounded => true,
    }) && (match end {
        IndexBound::Included(n) => index <= n,
        IndexBound::Excluded(n) => index < n,
        IndexBound::Unbounded => true,
    }) {
        assert(store@.held.contains_key(crate::custodian::log_store::entry_at(index)));
        let k = choose|k: int| 0 <= k < all.len() && (#[trigger] all[k]).log_id.index == index;
        assert(entries@[k].log_id.index == index);
    }
}

/// The log ends with the entry that is read last: nothing is read after it, and nothing at all from
/// a log without an end. What was purged last is told, and the vote is not touched.
pub proof fn the_log_ends_with_its_last_entry(
    store: CustodianStore,
    state: LogState,
    index: u64,
    one: Vec<Entry<LockCommand>>,
)
    requires
        log_sound(store@.held),
        call_ensures(
            CustodianStore::get_log_state,
            (&store,),
            Ok::<LogState, RaftStorageError>(state),
        ),
        reads(store, index, one),
    ensures
        state.last_log_id matches Some(last) ==> (index > last.index ==> one@.len() == 0) && (index
            == last.index ==> one@.len() == 1 && one@[0].log_id == last),
        state.last_log_id is None ==> one@.len() == 0,
{
    reading_is_what_is_logged(store, index, one);
}

/// What was purged last is told, and purging does not touch the vote.
pub proof fn what_was_purged_is_told(
    store: &mut CustodianStore,
    log_id: LogId,
    state: LogState,
    vote: Option<Vote>,
    after: Option<Vote>,
    meta: RaftMetadata,
)
    requires
        call_ensures(
            CustodianStore::purge_logs_upto,
            (store, log_id),
            Ok::<(), RaftStorageError>(()),
        ),
        call_ensures(
            CustodianStore::get_log_state,
            (final(store),),
            Ok::<LogState, RaftStorageError>(state),
        ),
        call_ensures(CustodianStore::read_vote, (old(store),), vote),
        call_ensures(CustodianStore::read_vote, (final(store),), after),
        call_ensures(
            RaftMetadata::load,
            (&final(store).state_machine.storage,),
            Ok::<RaftMetadata, StorageError>(meta),
        ),
    ensures
        state.last_purged_log_id == Some(log_id),
        meta.last_purged == Some(log_id),
        after == vote,
{
}

/// Work on the log leaves every collection but the log, and what was purged, as it is.
pub proof fn the_log_stands_apart(
    a: &mut CustodianStore,
    b: &mut CustodianStore,
    c: &mut CustodianStore,
    entries: Vec<Entry<LockCommand>>,
    log_id: LogId,
    tree: &str,
    key: &[u8],
    before: Option<Vec<u8>>,
    appended: Option<Vec<u8>>,
    cut: Option<Vec<u8>>,
    purged: Option<Vec<u8>>,
)
    requires
        *old(b) == *old(a) && *old(c) == *old(a),
        call_ensures(CustodianStore::append_to_log, (a, &entries), Ok::<(), RaftStorageError>(())),
        call_ensures(
            CustodianStore::delete_conflict_logs_since,
            (b, log_id),
            Ok::<(), RaftStorageError>(()),
        ),
        call_ensures(CustodianStore::purge_logs_upto, (c, log_id), Ok::<(), RaftStorageError>(())),
        tree@ != "raft_log"@ && tree@ != "raft_metadata"@,
        gets(old(a).state_machine.storage, tree, key, before),
        gets(final(a).state_machine.storage, tree, key, appended),
        gets(final(b).state_machine.storage, tree, key, cut),
        gets(final(c).state_machine.storage, tree, key, purged),
    ensures
        blob_of(appended) == blob_of(before),
        blob_of(cut) == blob_of(before),
        blob_of(purged) == blob_of(before),
{
}

// ---- Applying ----

proof fn every_entry_is_answered(
    m: crate::custodian::log_store::MachineView,
    entries: Seq<crate::raft::types::EntryView<LockCommand>>,
)
    requires
        crate::custodian::log_store::applied(m, entries) is Some,
    ensures
        ({
            let (after, responses) = crate::custodian::log_store::applied(m, entries)->0;
            &&& responses.len() == entries.len()
            &&& entries.len() > 0 ==> after.last_applied == Some(entries.last().log_id)
            &&& entries.len() == 0 ==> after == m
        }),
    decreases entries.len(),
{
    if entries.len() > 0 {
        every_entry_is_answered(m, entries.drop_last());
    }
}

/// Every entry is answered, and the last one is what was applied last.
pub proof fn applied_entries_are_answered(
    store: &mut CustodianStore,
    entries: Vec<Entry<LockCommand>>,
    responses: Vec<LockResponse>,
    before: (Option<LogId>, StoredMembership),
    after: (Option<LogId>, StoredMembership),
)
    requires
        call_ensures(
            CustodianStore::apply_to_state_machine,
            (store, &entries),
            Ok::<Vec<LockResponse>, RaftStorageError>(responses),
        ),
        call_ensures(CustodianStore::last_applied_state, (old(store),), before),
        call_ensures(CustodianStore::last_applied_state, (final(store),), after),
    ensures
        responses@.len() == entries@.len(),
        entries@.len() > 0 ==> after.0 == Some(entries@.last().log_id),
        entries@.len() == 0 ==> after.0 == before.0 && after.1@ == before.1@,
{
    let all = entries_of(entries@);
    every_entry_is_answered(old(store)@, all);
    assert(crate::custodian::log_store::responses_of(responses@).len() == responses@.len());
    if entries@.len() > 0 {
        assert(all.last() == entries@.last()@);
    }
}

proof fn one_entry(
    m: crate::custodian::log_store::MachineView,
    entries: Seq<crate::raft::types::EntryView<LockCommand>>,
)
    requires
        entries.len() == 1,
    ensures
        crate::custodian::log_store::applied(m, entries) == (
        match crate::custodian::log_store::entry_step(m, entries[0]) {
            Some((after, response)) => Some((after, seq![response])),
            None => None,
        }),
{
    let none = entries.drop_last();
    assert(none.len() == 0);
    assert(crate::custodian::log_store::applied(m, none) == Some(
        (m, Seq::<crate::custodian::locks::LockResponseView>::empty()),
    ));
    match crate::custodian::log_store::entry_step(m, entries[0]) {
        Some((after, response)) => {
            assert(Seq::<crate::custodian::locks::LockResponseView>::empty().push(response)
                =~= seq![response]);
        },
        None => {},
    }
}

/// A command is applied as the state machine applies it; a change of members is what the members
/// are afterwards; an empty entry does nothing but count as applied.
pub proof fn an_entry_does_what_it_holds(
    store: &mut CustodianStore,
    machine: &mut CustodianStateMachine,
    entries: Vec<Entry<LockCommand>>,
    responses: Vec<LockResponse>,
    command: LockCommand,
    answer: LockResponse,
    members: Membership,
    before: (Option<LogId>, StoredMembership),
    after: (Option<LogId>, StoredMembership),
)
    requires
        entries@.len() == 1,
        call_ensures(
            CustodianStore::apply_to_state_machine,
            (store, &entries),
            Ok::<Vec<LockResponse>, RaftStorageError>(responses),
        ),
        call_ensures(CustodianStore::last_applied_state, (old(store),), before),
        call_ensures(CustodianStore::last_applied_state, (final(store),), after),
        *old(machine) == old(store).state_machine,
        call_ensures(
            CustodianStateMachine::apply,
            (machine, &command),
            Ok::<LockResponse, StorageError>(answer),
        ),
    ensures
        responses@.len() == 1,
        after.0 == Some(entries@[0].log_id),
        entries@[0].payload is Blank ==> {
            &&& responses@[0].success && responses@[0].error is None && responses@[0].value is None
            &&& final(store).state_machine.storage@ == old(store).state_machine.storage@
            &&& after.1@ == before.1@
        },
        entries@[0].payload == EntryPayload::Membership::<LockCommand>(members) ==> {
            &&& responses@[0].success && responses@[0].error is None && responses@[0].value is None
            &&& final(store).state_machine.storage@ == old(store).state_machine.storage@
            &&& after.1.log_id == Some(entries@[0].log_id)
            &&& after.1.membership@ == members@
        },
        entries@[0].payload == EntryPayload::Normal(command) ==> {
            &&& responses@[0].success == answer.success
            &&& text_of(responses@[0].error) == text_of(answer.error)
            &&& blob_of(responses@[0].value) == blob_of(answer.value)
            &&& final(store).state_machine.storage@ == final(machine).storage@
            &&& after.1@ == before.1@
        },
{
    let all = entries_of(entries@);
    assert(all[0] == entries@[0]@);
    one_entry(old(store)@, all);
    let shown = crate::custodian::log_store::responses_of(responses@);
    assert(shown.len() == responses@.len());
    assert(shown[0] == responses@[0]@);
}

/// Applying entries in two goes comes to the same as applying them at once.
pub proof fn entries_can_be_applied_in_two_goes(
    whole: &mut CustodianStore,
    first: &mut CustodianStore,
    second: &mut CustodianStore,
    entries: Vec<Entry<LockCommand>>,
    some: Vec<Entry<LockCommand>>,
    rest: Vec<Entry<LockCommand>>,
    all: Vec<LockResponse>,
    few: Vec<LockResponse>,
    more: Vec<LockResponse>,
    i: int,
)
    requires
        *old(first) == *old(whole),
        *old(second) == *final(first),
        entries@ == some@ + rest@,
        call_ensures(
            CustodianStore::apply_to_state_machine,
            (whole, &entries),
            Ok::<Vec<LockResponse>, RaftStorageError>(all),
        ),
        call_ensures(
            CustodianStore::apply_to_state_machine,
            (first, &some),
            Ok::<Vec<LockResponse>, RaftStorageError>(few),
        ),
        call_ensures(
            CustodianStore::apply_to_state_machine,
            (second, &rest),
            Ok::<Vec<LockResponse>, RaftStorageError>(more),
        ),
    ensures
        final(whole)@ == final(second)@,
        all@.len() == few@.len() + more@.len(),
        0 <= i < few@.len() ==> all@[i]@ == few@[i]@,
        0 <= i < more@.len() ==> all@[few@.len() + i]@ == more@[i]@,
{
    let (a, b) = (entries_of(some@), entries_of(rest@));
    assert(entries_of(entries@) =~= a + b);
    crate::custodian::log_store::applying_in_parts(old(whole)@, a, b);
    let (x, y, z) = (
        crate::custodian::log_store::responses_of(all@),
        crate::custodian::log_store::responses_of(few@),
        crate::custodian::log_store::responses_of(more@),
    );
    assert(x == y + z);
    assert(x.len() == all@.len() && y.len() == few@.len() && z.len() == more@.len());
    if 0 <= i < few@.len() {
        assert(x[i] == y[i]);
    }
    if 0 <= i < more@.len() {
        assert(x[few@.len() + i] == z[i]);
    }
}

// ---- Snapshots ----

pub proof fn data_is_not_of_raft(tree: Seq<char>)
    ensures
        crate::db::storage::is_data_tree(encode_utf8(tree)) <==> tree != "raft_metadata"@ && tree
            != "raft_state"@ && tree != "raft_log"@ && tree != "__sled__default"@,
{
    if encode_utf8(tree) == encode_utf8("raft_metadata"@) {
        utf8_injective(tree, "raft_metadata"@);
    }
    if encode_utf8(tree) == encode_utf8("raft_state"@) {
        utf8_injective(tree, "raft_state"@);
    }
    if encode_utf8(tree) == encode_utf8("raft_log"@) {
        utf8_injective(tree, "raft_log"@);
    }
    if encode_utf8(tree) == encode_utf8("__sled__default"@) {
        utf8_injective(tree, "__sled__default"@);
    }
}

/// A snapshot that is built of one store and installed in another makes every collection there read
/// as in the first, but for the log's own and the default one, which stay as they were. The other
/// store then stands where the first stood.
pub proof fn a_snapshot_carries_everything_over(
    source: CustodianStore,
    target: &mut CustodianStore,
    snapshot: Snapshot,
    data: &[u8],
    tree: &str,
    key: &[u8],
    there: Option<Vec<u8>>,
    before: Option<Vec<u8>>,
    after: Option<Vec<u8>>,
    stood: (Option<LogId>, StoredMembership),
    stands: (Option<LogId>, StoredMembership),
)
    requires
        call_ensures(
            CustodianStore::build_snapshot,
            (&source,),
            Ok::<Snapshot, RaftStorageError>(snapshot),
        ),
        data@ == snapshot.data@,
        call_ensures(
            CustodianStore::install_snapshot,
            (target, &snapshot.meta, data),
            Ok::<(), RaftStorageError>(()),
        ),
        gets(source.state_machine.storage, tree, key, there),
        gets(old(target).state_machine.storage, tree, key, before),
        gets(final(target).state_machine.storage, tree, key, after),
        call_ensures(CustodianStore::last_applied_state, (&source,), stood),
        call_ensures(CustodianStore::last_applied_state, (final(target),), stands),
    ensures
        tree@ != "raft_metadata"@ && tree@ != "raft_state"@ && tree@ != "raft_log"@ && tree@
            != "__sled__default"@ ==> blob_of(after) == blob_of(there),
        tree@ == "raft_metadata"@ || tree@ == "raft_state"@ || tree@ == "raft_log"@ || tree@
            == "__sled__default"@ ==> blob_of(after) == blob_of(before),
        stands.0 == stood.0,
        stands.1@ == stood.1@,
        final(target).raft_storage == old(target).raft_storage,
{
    data_is_not_of_raft(tree@);
    let items = crate::custodian::snapshot::snapshot_of(data@)->0;
    let names = choose|names: Seq<Seq<u8>>|
        crate::db::storage::are_tree_names(source@.held, names)
            && crate::custodian::snapshot::is_dump(
            source@.held,
            #[trigger] crate::db::storage::data_names_of(names),
            items,
        );
    let at = (tree@, key@);
    let now = final(target)@.held;
    let was = old(target)@.held;
    assert(is_snapshot(source@.held, items));
    let empty = crate::custodian::snapshot::restored(Map::empty(), items);
    assert(crate::custodian::snapshot::data_part(now) == crate::custodian::snapshot::data_part(
        empty,
    ));
    let part = crate::custodian::snapshot::data_part(source@.held);
    assert(empty == part);
    if crate::db::storage::is_data_tree(encode_utf8(tree@)) {
        assert(crate::custodian::snapshot::data_part(now).contains_key(at) == now.contains_key(at));
        assert(crate::custodian::snapshot::data_part(empty).contains_key(at) == empty.contains_key(
            at,
        ));
        assert(part.contains_key(at) == source@.held.contains_key(at));
        if now.contains_key(at) {
            assert(crate::custodian::snapshot::data_part(now)[at] == now[at]);
            assert(crate::custodian::snapshot::data_part(empty)[at] == empty[at]);
            assert(part[at] == source@.held[at]);
        }
    } else {
        assert forall|i: int| 0 <= i < items.len() implies crate::db::storage::is_data_tree(
            encode_utf8((#[trigger] items[i]).0),
        ) by {
            restoring_puts_each(Map::empty(), items, i);
            assert(part.contains_key((items[i].0, items[i].1)));
        }
        let rest = crate::custodian::snapshot::other_part(now);
        assert(rest == crate::custodian::snapshot::other_part(was));
        assert(rest.contains_key(at) == now.contains_key(at));
        assert(crate::custodian::snapshot::other_part(was).contains_key(at) == was.contains_key(at));
        if now.contains_key(at) {
            assert(rest[at] == now[at]);
            assert(crate::custodian::snapshot::other_part(was)[at] == was[at]);
        }
    }
}

proof fn restoring_puts_each(
    held: crate::db::storage::Held,
    items: Seq<crate::custodian::snapshot::Item>,
    i: int,
)
    requires
        0 <= i < items.len(),
    ensures
        crate::custodian::snapshot::restored(held, items).contains_key((items[i].0, items[i].1)),
    decreases items.len(),
{
    if i < items.len() - 1 {
        restoring_puts_each(held, items.drop_last(), i);
        assert(items.drop_last()[i] == items[i]);
    }
}

/// A snapshot is named after the term and the index of the last entry it covers, and tells what it
/// covers.
pub proof fn a_snapshot_tells_what_it_covers(
    store: CustodianStore,
    snapshot: Snapshot,
    state: (Option<LogId>, StoredMembership),
)
    requires
        call_ensures(
            CustodianStore::build_snapshot,
            (&store,),
            Ok::<Snapshot, RaftStorageError>(snapshot),
        ),
        call_ensures(CustodianStore::last_applied_state, (&store,), state),
    ensures
        snapshot.meta.last_log_id == state.0,
        snapshot.meta.last_membership@ == state.1@,
        state.0 matches Some(last) ==> snapshot.meta.snapshot_id@ == "snapshot-"@ + dec(
            last.leader_id.term as nat,
        ) + "-"@ + dec(last.index as nat),
        state.0 is None ==> snapshot.meta.snapshot_id@ == "snapshot-empty"@,
{
}

/// A snapshot that cannot be read is refused, and the store stays as it is.
pub proof fn a_spoilt_snapshot_changes_nothing(
    store: &mut CustodianStore,
    meta: SnapshotMeta,
    data: &[u8],
    out: Result<(), RaftStorageError>,
)
    requires
        call_ensures(CustodianStore::install_snapshot, (store, &meta, data), out),
        out matches Err(e) && e.cause is Corrupt,
    ensures
        final(store)@ == old(store)@,
        out->Err_0.subject == crate::custodian::log_store::ErrorSubject::Snapshot(
            meta.last_log_id,
            meta.snapshot_id,
        ),
{
}

// ---- Counting snapshots ----

/// Nothing is counted at first.
pub proof fn counting_begins_at_nothing(m: SnapshotMetrics)
    requires
        call_ensures(init_metrics, (), m),
    ensures
        m.created_total == 0 && m.install_started_total == 0 && m.install_completed_total == 0
            && m.last_size_bytes == 0,
{
}

/// A snapshot that is built, begun to be installed, or installed is counted as that and as nothing
/// else, and the size that was seen last is kept. A count at its end begins again.
pub proof fn each_thing_is_counted_once(
    a: &mut SnapshotMetrics,
    b: &mut SnapshotMetrics,
    c: &mut SnapshotMetrics,
    len: usize,
)
    requires
        *old(b) == *old(a) && *old(c) == *old(a),
        call_ensures(SnapshotMetrics::built, (a, len), ()),
        call_ensures(SnapshotMetrics::install_started, (b, len), ()),
        call_ensures(SnapshotMetrics::install_completed, (c,), ()),
    ensures
        old(a).created_total < u64::MAX ==> final(a).created_total == old(a).created_total + 1,
        old(a).created_total == u64::MAX ==> final(a).created_total == 0,
        final(a).install_started_total == old(a).install_started_total,
        final(a).install_completed_total == old(a).install_completed_total,
        len <= i64::MAX ==> final(a).last_size_bytes == len && final(b).last_size_bytes == len,
        len > i64::MAX ==> final(a).last_size_bytes == i64::MAX && final(b).last_size_bytes
            == i64::MAX,
        final(b).created_total == old(a).created_total,
        old(a).install_started_total < u64::MAX ==> final(b).install_started_total == old(a).install_started_total + 1,
        final(b).install_completed_total == old(a).install_completed_total,
        final(c).created_total == old(a).created_total,
        final(c).install_started_total == old(a).install_started_total,
        old(a).install_completed_total < u64::MAX ==> final(c).install_completed_total == old(a).install_completed_total + 1,
        final(c).last_size_bytes == old(a).last_size_bytes,
{
}

/// A count is shown as it is, as far as a gauge goes.
pub proof fn a_count_is_shown(n: u64, out: i64)
    requires
        call_ensures(count_gauge, (n,), out),
    ensures
        n <= i64::MAX ==> out == n,
        n > i64::MAX ==> out == i64::MAX,
{
}

// ---- What is asked of the database ----

/// A reply that a value was kept is taken as that, and why it was not kept is told.
pub proof fn keeping_is_told(success: bool, error: String, out: Result<(), String>)
    requires
        call_ensures(put_reply, (success, error), out),
    ensures
        out is Ok <==> success,
        out matches Err(text) ==> text@ == error@,
{
}

/// A value is there where the reply says so.
pub proof fn a_value_is_handed_on(reply: GetReply, out: Option<Vec<u8>>)
    requires
        call_ensures(crate::custodian::db_client::get_reply, (reply,), out),
    ensures
        out is Some <==> reply.found,
        out matches Some(value) ==> value@ == reply.value@,
{
}

/// A write of a ticket carries its body and its fields; a new ticket has no number yet.
pub proof fn writes_carry_the_ticket(
    id: u64,
    body: Vec<u8>,
    index: WireTicketIndex,
    created: TicketWrite,
    updated: TicketWrite,
    gone: TicketLookup,
)
    requires
        call_ensures(create_ticket_write, (body, index), created),
        call_ensures(update_ticket_write, (id, body, index), updated),
        call_ensures(soft_delete_lookup, (id,), gone),
    ensures
        created.ticket_id == 0 && created.encrypted_body@ == body@ && created.index == Some(index),
        updated.ticket_id == id && updated.encrypted_body@ == body@ && updated.index == Some(index),
        gone.ticket_id == id && !gone.include_deleted,
{
}

/// A ticket that is not found is no failure; other refusals are handed on.
pub proof fn not_finding_is_no_failure(
    reply: Result<TicketRecord, Status>,
    out: Result<Option<TicketRecord>, Status>,
)
    requires
        call_ensures(get_ticket_outcome, (reply,), out),
    ensures
        reply matches Ok(record) ==> out == Ok::<Option<TicketRecord>, Status>(Some(record)),
        reply matches Err(e) ==> (e.code == Code::NotFound ==> out == Ok::<
            Option<TicketRecord>,
            Status,
        >(None)),
        reply matches Err(e) ==> (e.code != Code::NotFound ==> out == Err::<
            Option<TicketRecord>,
            Status,
        >(e)),
{
}

// ---- Rows and listings of the log ----

/// Reading the log of a storage is reading the log of a store over it.
pub proof fn the_log_is_read_from_storage(
    store: CustodianStore,
    start: IndexBound,
    end: IndexBound,
    a: Vec<Entry<LockCommand>>,
    b: Vec<Entry<LockCommand>>,
    i: int,
)
    requires
        log_sound(store@.held),
        call_ensures(
            read_log,
            (&store.state_machine.storage, start, end),
            Ok::<Vec<Entry<LockCommand>>, RaftStorageError>(a),
        ),
        call_ensures(
            CustodianStore::try_get_log_entries,
            (&store, start, end),
            Ok::<Vec<Entry<LockCommand>>, RaftStorageError>(b),
        ),
    ensures
        a@.len() == b@.len(),
        0 <= i < a@.len() ==> a@[i]@ == b@[i]@,
{
    let (x, y) = (entries_of(a@), entries_of(b@));
    assert(x.len() == a@.len() && y.len() == b@.len());
    ranges_agree(
        store@.held,
        crate::custodian::log_store::first_index(start),
        crate::custodian::log_store::last_index(end),
        x,
        y,
    );
    if 0 <= i < a@.len() {
        assert(x[i] == a@[i]@ && y[i] == b@[i]@);
    }
}

proof fn ranges_agree(
    held: crate::db::storage::Held,
    first: int,
    last: Option<int>,
    x: Seq<crate::raft::types::EntryView<LockCommand>>,
    y: Seq<crate::raft::types::EntryView<LockCommand>>,
)
    requires
        crate::custodian::log_store::is_log_range(held, first, last, x),
        crate::custodian::log_store::is_log_range(held, first, last, y),
    ensures
        x == y,
    decreases x.len(),
{
    if x.len() == 0 {
        if y.len() > 0 {
            within_the_other(held, first, last, y, x, 0);
        }
        assert(x =~= y);
    } else {
        let n = x.len() - 1;
        let k = within_the_other(held, first, last, x, y, n as int);
        let m = y.len() - 1;
        let j = within_the_other(held, first, last, y, x, m as int);
        if j < n {
            assert(x[j].log_id.index < x[n as int].log_id.index);
        }
        if k < m {
            assert(y[k].log_id.index < y[m as int].log_id.index);
        }
        assert(x.last() == y.last());
        same_length(held, first, last, x, y);
        assert forall|i: int| 0 <= i < x.len() implies x[i] == y[i] by {
            same_place(held, first, last, x, y, i);
        }
        assert(x =~= y);
    }
}

/// An entry of one reading of a range is in any other.
proof fn within_the_other(
    held: crate::db::storage::Held,
    first: int,
    last: Option<int>,
    x: Seq<crate::raft::types::EntryView<LockCommand>>,
    y: Seq<crate::raft::types::EntryView<LockCommand>>,
    i: int,
) -> (k: int)
    requires
        crate::custodian::log_store::is_log_range(held, first, last, x),
        crate::custodian::log_store::is_log_range(held, first, last, y),
        0 <= i < x.len(),
    ensures
        0 <= k < y.len(),
        y[k] == x[i],
{
    let index = x[i].log_id.index;
    assert(crate::custodian::log_store::logged(held, index) == Some(x[i]));
    assert(held.contains_key(crate::custodian::log_store::entry_at(index)));
    let k = choose|k: int| 0 <= k < y.len() && (#[trigger] y[k]).log_id.index == index;
    assert(crate::custodian::log_store::logged(held, y[k].log_id.index) == Some(y[k]));
    k
}

/// The first entries of two readings of a range stand at the same places.
proof fn same_place(
    held: crate::db::storage::Held,
    first: int,
    last: Option<int>,
    x: Seq<crate::raft::types::EntryView<LockCommand>>,
    y: Seq<crate::raft::types::EntryView<LockCommand>>,
    i: int,
)
    requires
        crate::custodian::log_store::is_log_range(held, first, last, x),
        crate::custodian::log_store::is_log_range(held, first, last, y),
        0 <= i < x.len(),
        i < y.len(),
    ensures
        x[i] == y[i],
    decreases i,
{
    let k = within_the_other(held, first, last, x, y, i);
    let j = within_the_other(held, first, last, y, x, i);
    if k < i {
        same_place(held, first, last, x, y, k);
        assert(x[k].log_id.index < x[i].log_id.index);
    }
    if j < i {
        same_place(held, first, last, x, y, j);
        assert(y[j].log_id.index < y[i].log_id.index);
    }
    if k > i && j > i {
        assert(y[i].log_id.index < y[k].log_id.index);
        assert(x[i].log_id.index < x[j].log_id.index);
    }
}

proof fn same_length(
    held: crate::db::storage::Held,
    first: int,
    last: Option<int>,
    x: Seq<crate::raft::types::EntryView<LockCommand>>,
    y: Seq<crate::raft::types::EntryView<LockCommand>>,
)
    requires
        crate::custodian::log_store::is_log_range(held, first, last, x),
        crate::custodian::log_store::is_log_range(held, first, last, y),
    ensures
        x.len() == y.len(),
{
    if x.len() < y.len() {
        let k = within_the_other(held, first, last, y, x, x.len() as int);
        same_place(held, first, last, x, y, k);
        assert(y[k].log_id.index < y[x.len() as int].log_id.index);
    }
    if y.len() < x.len() {
        let k = within_the_other(held, first, last, x, y, y.len() as int);
        same_place(held, first, last, x, y, k);
        assert(x[k].log_id.index < x[y.len() as int].log_id.index);
    }
}

/// A scan of a listing reads one entry after the other, and stops at the first that is past the
/// given index.
pub proof fn a_scan_stops_past_its_end(
    pairs: Vec<(Vec<u8>, Vec<u8>)>,
    to: Option<u64>,
    entries: Vec<Entry<LockCommand>>,
    i: int,
    key: &[u8],
    index: Option<u64>,
    bytes: &[u8],
    one: Result<Entry<LockCommand>, String>,
)
    requires
        call_ensures(
            scan_entries,
            (&pairs, to),
            Ok::<Vec<Entry<LockCommand>>, RaftStorageError>(entries),
        ),
        0 <= i < pairs@.len(),
        key@ == pairs@[i].0@ && bytes@ == pairs@[i].1@,
        call_ensures(read_be8, (key,), index),
        call_ensures(Entry::<LockCommand>::decode, (bytes,), one),
    ensures
        entries@.len() <= pairs@.len(),
        i < entries@.len() ==> (one matches Ok(e) && e@ == entries@[i]@) && (index matches Some(n)
            && (to matches Some(t) ==> n <= t)),
        i == entries@.len() ==> (index matches Some(n) && (to matches Some(t) && n > t)),
{
    let list = crate::store::pairs_of(pairs@);
    assert(list[i] == (pairs@[i].0@, pairs@[i].1@));
    scanned_so_far(list, crate::custodian::log_store::opt_int(to), pairs@.len(), i);
    assert(entries_of(entries@).len() == entries@.len());
    if i < entries@.len() {
        assert(entries_of(entries@)[i] == entries@[i]@);
    }
}

proof fn scanned_so_far(list: Seq<(Seq<u8>, Seq<u8>)>, end: Option<int>, n: nat, i: int)
    requires
        n <= list.len(),
        0 <= i < n,
    ensures
        match crate::custodian::log_store::scanned(list, end, n) {
            crate::custodian::log_store::Scan::Going(found) => found.len() == n && list[i].0.len()
                == 8 && (end matches Some(last) ==> crate::bytes::from_be8(list[i].0) <= last)
                && crate::raft::codec::entry_in::<LockCommand>(list[i].1) == Some(found[i]),
            crate::custodian::log_store::Scan::Ended(found) => found.len() < n && (i < found.len()
                ==> list[i].0.len() == 8 && (end matches Some(last) ==> crate::bytes::from_be8(
                list[i].0,
            ) <= last) && crate::raft::codec::entry_in::<LockCommand>(list[i].1) == Some(found[i]))
                && (i == found.len() ==> list[i].0.len() == 8 && (end matches Some(last)
                && crate::bytes::from_be8(list[i].0) > last)),
            _ => true,
        },
    decreases n,
{
    let before = crate::custodian::log_store::scanned(list, end, (n - 1) as nat);
    if n == 1 {
        assert(before == crate::custodian::log_store::Scan::Going(Seq::empty()));
    } else {
        if i < n - 1 {
            scanned_so_far(list, end, (n - 1) as nat, i);
        } else {
            scanned_so_far(list, end, (n - 1) as nat, 0);
        }
    }
}

/// The rows that are kept of a vote and of what was purged are read as such; no row is nothing.
pub proof fn rows_of_bookkeeping_are_read(
    s: &mut Storage,
    t: &mut Storage,
    vote: Vote,
    meta: RaftMetadata,
    tree: &str,
    voted: &[u8],
    purged: &[u8],
    a: Option<Vec<u8>>,
    b: Option<Vec<u8>>,
    x: Result<Option<Vote>, StorageError>,
    y: Result<Option<LogId>, StorageError>,
    none: Result<Option<Vote>, StorageError>,
    nothing: Result<Option<LogId>, StorageError>,
)
    requires
        call_ensures(RaftMetadata::persist_vote, (s, &Some(vote)), Ok::<(), StorageError>(())),
        call_ensures(RaftMetadata::persist_last_purged, (&meta, t), Ok::<(), StorageError>(())),
        tree@ == "raft_metadata"@,
        voted@ == encode_utf8("vote"@),
        purged@ == encode_utf8("last_purged"@),
        gets(*final(s), tree, voted, a),
        gets(*final(t), tree, purged, b),
        call_ensures(read_vote_row, (a,), x),
        call_ensures(read_purged_row, (b,), y),
        call_ensures(read_vote_row, (None::<Vec<u8>>,), none),
        call_ensures(read_purged_row, (None::<Vec<u8>>,), nothing),
    ensures
        x matches Ok(v) && v == Some(vote),
        y matches Ok(l) && l == meta.last_purged,
        none matches Ok(None),
        nothing matches Ok(None),
{
}

/// The last entry of a listing tells where the log ends; an empty one tells nothing.
pub proof fn the_last_of_a_listing_is_the_end(
    pairs: Vec<(Vec<u8>, Vec<u8>)>,
    out: Result<Option<LogId>, StorageError>,
    bytes: &[u8],
    last: Result<Entry<LockCommand>, String>,
)
    requires
        call_ensures(last_log_id, (&pairs,), out),
        pairs@.len() > 0 ==> bytes@ == pairs@.last().1@ && call_ensures(
            Entry::<LockCommand>::decode,
            (bytes,),
            last,
        ),
    ensures
        pairs@.len() == 0 ==> (out matches Ok(None)),
        pairs@.len() > 0 ==> (last matches Ok(e) ==> (out matches Ok(Some(id)) && id == e.log_id)),
        pairs@.len() > 0 ==> (last is Err ==> out is Err),
{
    let list = crate::store::pairs_of(pairs@);
    assert(list.len() == pairs@.len());
    if pairs@.len() > 0 {
        assert(list.last() == (pairs@.last().0@, pairs@.last().1@));
    }
}

// ---- Collections of a snapshot ----

proof fn restored_holds_the_last(
    held: crate::db::storage::Held,
    items: Seq<crate::custodian::snapshot::Item>,
    tree: Seq<char>,
    key: Seq<u8>,
)
    ensures
        ({
            let now = crate::custodian::snapshot::restored(held, items);
            let at = (tree, key);
            &&& (forall|i: int|
                0 <= i < items.len() ==> !((#[trigger] items[i]).0 == tree && items[i].1 == key))
                ==> now.contains_key(at) == held.contains_key(at) && (held.contains_key(at)
                ==> now[at] == held[at])
            &&& forall|i: int|
                0 <= i < items.len() && (#[trigger] items[i]).0 == tree && items[i].1 == key && (
                forall|j: int|
                    i < j < items.len() ==> !((#[trigger] items[j]).0 == tree && items[j].1 == key))
                    ==> now.contains_key(at) && now[at] == items[i].2
        }),
    decreases items.len(),
{
    if items.len() > 0 {
        let rest = items.drop_last();
        restored_holds_the_last(held, rest, tree, key);
        let now = crate::custodian::snapshot::restored(held, items);
        let before = crate::custodian::snapshot::restored(held, rest);
        let last = items[items.len() - 1];
        assert(now == before.insert((last.0, last.1), last.2));
        if forall|i: int|
            0 <= i < items.len() ==> !((#[trigger] items[i]).0 == tree && items[i].1 == key) {
            assert forall|i: int| 0 <= i < rest.len() implies !((#[trigger] rest[i]).0 == tree
                && rest[i].1 == key) by {
                assert(rest[i] == items[i]);
            }
            assert(!(last.0 == tree && last.1 == key));
        }
        assert forall|i: int|
            0 <= i < items.len() && (#[trigger] items[i]).0 == tree && items[i].1 == key && (forall|
                j: int,
            |
                i < j < items.len() ==> !((#[trigger] items[j]).0 == tree && items[j].1 == key)) implies now.contains_key(
        (tree, key)) && now[(tree, key)] == items[i].2 by {
            if i < rest.len() {
                assert(rest[i] == items[i]);
                assert(!(items[items.len() - 1].0 == tree && items[items.len() - 1].1 == key));
                assert forall|j: int| i < j < rest.len() implies !((#[trigger] rest[j]).0 == tree
                    && rest[j].1 == key) by {
                    assert(rest[j] == items[j]);
                }
            }
        }
    }
}

/// Replacing collections empties the named ones and then puts the entries, the last of each key; what
/// is neither named nor put stays.
pub proof fn collections_are_replaced(
    s: &mut Storage,
    names: Vec<String>,
    items: Vec<(String, Vec<u8>, Vec<u8>)>,
    tree: &str,
    key: &[u8],
    before: Option<Vec<u8>>,
    after: Option<Vec<u8>>,
    i: int,
)
    requires
        call_ensures(replace_collections, (s, &names, &items), Ok::<(), StorageError>(())),
        gets(*old(s), tree, key, before),
        gets(*final(s), tree, key, after),
    ensures
        0 <= i < items@.len() && items@[i].0@ == tree@ && items@[i].1@ == key@ && (forall|j: int|
            i < j < items@.len() ==> !((#[trigger] items@[j]).0@ == tree@ && items@[j].1@ == key@))
            ==> blob_of(after) == Some(items@[i].2@),
        (forall|j: int|
            0 <= j < items@.len() ==> !((#[trigger] items@[j]).0@ == tree@ && items@[j].1@ == key@))
            ==> (if texts_of(names@).contains(tree@) {
            after is None
        } else {
            blob_of(after) == blob_of(before)
        }),
{
    let all = crate::custodian::snapshot::items_of(items@);
    assert(all.len() == items@.len());
    let bare = crate::custodian::snapshot::cleared(old(s)@, texts_of(names@));
    restored_holds_the_last(bare, all, tree@, key@);
    if 0 <= i < items@.len() && items@[i].0@ == tree@ && items@[i].1@ == key@ && (forall|j: int|
        i < j < items@.len() ==> !((#[trigger] items@[j]).0@ == tree@ && items@[j].1@ == key@)) {
        assert(all[i] == (items@[i].0@, items@[i].1@, items@[i].2@));
        assert forall|j: int| i < j < all.len() implies !((#[trigger] all[j]).0 == tree@ && all[j].1
            == key@) by {
            assert(!(items@[j].0@ == tree@ && items@[j].1@ == key@));
        }
    }
    if forall|j: int|
        0 <= j < items@.len() ==> !((#[trigger] items@[j]).0@ == tree@ && items@[j].1@ == key@) {
        assert forall|j: int| 0 <= j < all.len() implies !((#[trigger] all[j]).0 == tree@
            && all[j].1 == key@) by {
            assert(!(items@[j].0@ == tree@ && items@[j].1@ == key@));
        }
    }
}

/// What is written out of the named collections is every pair in them, and nothing else.
pub proof fn collections_are_written_out(
    s: Storage,
    names: Vec<String>,
    items: Vec<(String, Vec<u8>, Vec<u8>)>,
    tree: &str,
    key: &[u8],
    value: Option<Vec<u8>>,
    i: int,
)
    requires
        call_ensures(
            dump_collections,
            (&s, &names),
            Ok::<Vec<(String, Vec<u8>, Vec<u8>)>, StorageError>(items),
        ),
        gets(s, tree, key, value),
    ensures
        0 <= i < items@.len() ==> texts_of(names@).contains(items@[i].0@),
        0 <= i < items@.len() && items@[i].0@ == tree@ && items@[i].1@ == key@ ==> blob_of(value)
            == Some(items@[i].2@),
        value is Some && texts_of(names@).contains(tree@) ==> exists|k: int|
            0 <= k < items@.len() && (#[trigger] items@[k]).0@ == tree@ && items@[k].1@ == key@,
{
    let all = crate::custodian::snapshot::items_of(items@);
    assert(all.len() == items@.len());
    crate::custodian::snapshot::dump_holds(s@, texts_of(names@), all);
    if 0 <= i < items@.len() {
        assert(all[i] == (items@[i].0@, items@[i].1@, items@[i].2@));
    }
    if value is Some && texts_of(names@).contains(tree@) {
        assert(s@.contains_key((tree@, key@)));
        let k = choose|k: int| 0 <= k < all.len() && (#[trigger] all[k]).0 == tree@ && all[k].1
            == key@;
        assert(items@[k].0@ == tree@ && items@[k].1@ == key@);
    }
}

/// A snapshot of some entries covers what it is told to cover, and is named after it.
pub proof fn a_snapshot_is_of_its_entries(
    items: Vec<(String, Vec<u8>, Vec<u8>)>,
    last: Option<LogId>,
    members: StoredMembership,
    out: Result<Snapshot, StorageError>,
)
    requires
        call_ensures(Snapshot::of_items, (&items, last, &members), out),
    ensures
        out matches Ok(snapshot) && snapshot.meta.last_log_id == last
            && snapshot.meta.last_membership@ == members@,
        last matches Some(id) ==> out->Ok_0.meta.snapshot_id@ == "snapshot-"@ + dec(
            id.leader_id.term as nat,
        ) + "-"@ + dec(id.index as nat),
        last is None ==> out->Ok_0.meta.snapshot_id@ == "snapshot-empty"@,
{
}

/// A new state machine has applied nothing and knows no members, and a store that is opened keeps
/// the vote and the purged entry that its storage keeps.
pub proof fn a_store_takes_up_what_is_kept(
    storage: Storage,
    machine: CustodianStateMachine,
    path: &str,
    store: CustodianStore,
    meta: RaftMetadata,
    vote: Option<Vote>,
    state: (Option<LogId>, StoredMembership),
)
    requires
        call_ensures(CustodianStateMachine::new, (storage,), machine),
        call_ensures(CustodianStore::new, (path,), Ok::<CustodianStore, StorageError>(store)),
        call_ensures(
            RaftMetadata::load,
            (&store.state_machine.storage,),
            Ok::<RaftMetadata, StorageError>(meta),
        ),
        call_ensures(CustodianStore::read_vote, (&store,), vote),
        call_ensures(CustodianStore::last_applied_state, (&store,), state),
    ensures
        machine.storage == storage && machine.last_applied_log is None
            && machine.last_membership.log_id is None
            && machine.last_membership.membership.node_ids@.len() == 0,
        vote == meta.vote && store.raft_storage.last_purged == meta.last_purged,
        state.0 is None && state.1.log_id is None && state.1.membership.node_ids@.len() == 0,
        store.state_machine.storage.directory() == Some(path@),
{
}

// ---- What every operation keeps, and how it fails ----

/// Every key of the log is the index of the entry under it, at first and after all work on the log.
pub proof fn the_log_stays_sound(
    new: CustodianStore,
    a: &mut CustodianStore,
    b: &mut CustodianStore,
    c: &mut CustodianStore,
    d: &mut CustodianStore,
    entries: Vec<Entry<LockCommand>>,
    log_id: LogId,
    vote: Vote,
)
    requires
        call_ensures(CustodianStore::new_temp, (), Ok::<CustodianStore, StorageError>(new)),
        log_sound(old(a)@.held),
        *old(b) == *old(a) && *old(c) == *old(a) && *old(d) == *old(a),
        call_ensures(CustodianStore::append_to_log, (a, &entries), Ok::<(), RaftStorageError>(())),
        call_ensures(
            CustodianStore::delete_conflict_logs_since,
            (b, log_id),
            Ok::<(), RaftStorageError>(()),
        ),
        call_ensures(CustodianStore::purge_logs_upto, (c, log_id), Ok::<(), RaftStorageError>(())),
        call_ensures(CustodianStore::save_vote, (d, &vote), Ok::<(), RaftStorageError>(())),
    ensures
        log_sound(new@.held),
        log_sound(final(a)@.held),
        log_sound(final(b)@.held),
        log_sound(final(c)@.held),
        log_sound(final(d)@.held),
{
    bookkeeping_apart();
    conflicting_entries_are_gone(old(a)@.held, log_id.index, 0);
    purged_entries_are_gone(old(a)@.held, log_id.index, 0);
    let short = crate::custodian::log_store::log_cut(
        old(a)@.held,
        crate::store::not_after(be8(log_id.index)),
    );
    sound_beside(short, final(c)@.held);
    sound_beside(old(a)@.held, final(d)@.held);
}

proof fn sound_beside(held: crate::db::storage::Held, now: crate::db::storage::Held)
    requires
        log_sound(held),
        forall|key: Seq<u8>| #[trigger]
            now.contains_key((crate::db::storage::TREE_RAFT_LOG@, key)) ==> held.contains_key(
                (crate::db::storage::TREE_RAFT_LOG@, key),
            ) && now[(crate::db::storage::TREE_RAFT_LOG@, key)] == held[(
                crate::db::storage::TREE_RAFT_LOG@,
                key,
            )],
    ensures
        log_sound(now),
{
    assert forall|key: Seq<u8>| #[trigger]
        now.contains_key((crate::db::storage::TREE_RAFT_LOG@, key)) implies key.len() == 8 && (
    crate::raft::codec::entry_in::<LockCommand>(
        now[(crate::db::storage::TREE_RAFT_LOG@, key)],
    ) matches Some(entry) && entry.log_id.index == crate::bytes::from_be8(key)) by {
        assert(held.contains_key((crate::db::storage::TREE_RAFT_LOG@, key)));
    }
}

/// A failure tells what failed: the vote, the entry that was worked on, or the state machine; and
/// whether it was read or written.
pub proof fn a_failure_tells_what_failed(
    a: &mut CustodianStore,
    b: &mut CustodianStore,
    c: &mut CustodianStore,
    d: &mut CustodianStore,
    e: &mut CustodianStore,
    store: CustodianStore,
    vote: Vote,
    entries: Vec<Entry<LockCommand>>,
    log_id: LogId,
    s: RaftStorageError,
    t: RaftStorageError,
    u: RaftStorageError,
    v: RaftStorageError,
    w: RaftStorageError,
    x: RaftStorageError,
    y: RaftStorageError,
)
    requires
        call_ensures(CustodianStore::save_vote, (a, &vote), Err::<(), RaftStorageError>(s)),
        call_ensures(CustodianStore::append_to_log, (b, &entries), Err::<(), RaftStorageError>(t)),
        call_ensures(
            CustodianStore::delete_conflict_logs_since,
            (c, log_id),
            Err::<(), RaftStorageError>(u),
        ),
        call_ensures(CustodianStore::purge_logs_upto, (d, log_id), Err::<(), RaftStorageError>(v)),
        call_ensures(
            CustodianStore::apply_to_state_machine,
            (e, &entries),
            Err::<Vec<LockResponse>, RaftStorageError>(w),
        ),
        call_ensures(
            CustodianStore::build_snapshot,
            (&store,),
            Err::<Snapshot, RaftStorageError>(x),
        ),
        call_ensures(
            CustodianStore::get_log_state,
            (&store,),
            Err::<LogState, RaftStorageError>(y),
        ),
    ensures
        s.subject == ErrorSubject::Vote && s.verb == ErrorVerb::Write,
        t.verb == ErrorVerb::Write && (entries@.len() > 0 ==> t.subject == ErrorSubject::Log(
            entries@.last().log_id,
        )),
        u.subject == ErrorSubject::Log(log_id) && u.verb == ErrorVerb::Write,
        v.subject == ErrorSubject::Log(log_id) && v.verb == ErrorVerb::Write,
        w.subject == ErrorSubject::StateMachine && w.verb == ErrorVerb::Write,
        x.subject == ErrorSubject::StateMachine && x.verb == ErrorVerb::Read,
        y.verb == ErrorVerb::Read && (y.subject matches ErrorSubject::Log(l) && l.index == 0
            && l.leader_id.term == 0 && l.leader_id.node_id == 0),
{
}

} // verus!
