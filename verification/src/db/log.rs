//! Replicated operations on storage.

use vstd::prelude::*;
use vstd::utf8::encode_utf8;

use crate::bytes::{be8, to_be8};
use crate::db::consistency::{
    ids_below_counter, other_changes_keep_consistency, same_tickets, tickets_consistent,
};
use crate::db::rows::{
    index_names_apart, is_ticket_index, is_user_index, ticket_index_values, user_index_values,
    TicketIndexFields, TicketIndexView, TicketView, UserIndexFields, UserIndexView, UserView,
};
use crate::db::storage::{
    counter_at, is_entry, lookup_ticket, lookup_user, new_ticket, new_user, next_counter_value,
    pair_writes, ticket_at, ticket_created, ticket_rewritten, user_created, user_rewritten, Held,
    Lookup, Storage, StorageError, SEQ_TICKET, TREE_SEQ, TREE_TICKETS, TREE_USERS,
};
use crate::db::tickets::{row_trees_apart, ticket_entries_in_indexes};
use crate::db::user_consistency::{
    is_plain, other_changes_keep_users_consistent, same_users, users_consistent,
};
use crate::db::users::user_entries_in_indexes;
use crate::store::{after_writes, pairs_of};
use crate::text::blob_of;

verus! {

/// A replicated database operation.
#[derive(Debug, Clone)]
pub enum LogEntry {
    Put { collection: String, key: Vec<u8>, value: Vec<u8> },
    /// Reads need no replication; applying one changes nothing.
    Get { collection: String, key: Vec<u8> },
    Delete { collection: String, key: Vec<u8> },
    BatchPut { collection: String, pairs: Vec<(Vec<u8>, Vec<u8>)> },
    CreateTicket { body: Vec<u8>, index: TicketIndexFields },
    UpdateTicket { ticket_id: u64, body: Vec<u8>, index: TicketIndexFields },
    SoftDeleteTicket { ticket_id: u64, at_unix: i64 },
    CreateUser { user_uuid: String, body: Vec<u8>, index: UserIndexFields },
    UpdateUser { user_uuid: String, body: Vec<u8>, index: UserIndexFields },
    SoftDeleteUser { user_uuid: String, at_unix: i64 },
}

/// What a replicated operation holds.
pub enum LogEntryView {
    Put { collection: Seq<char>, key: Seq<u8>, value: Seq<u8> },
    Get { collection: Seq<char>, key: Seq<u8> },
    Delete { collection: Seq<char>, key: Seq<u8> },
    BatchPut { collection: Seq<char>, pairs: Seq<(Seq<u8>, Seq<u8>)> },
    CreateTicket { body: Seq<u8>, index: TicketIndexView },
    UpdateTicket { ticket_id: u64, body: Seq<u8>, index: TicketIndexView },
    SoftDeleteTicket { ticket_id: u64, at_unix: i64 },
    CreateUser { user_uuid: Seq<char>, body: Seq<u8>, index: UserIndexView },
    UpdateUser { user_uuid: Seq<char>, body: Seq<u8>, index: UserIndexView },
    SoftDeleteUser { user_uuid: Seq<char>, at_unix: i64 },
}

impl View for LogEntry {
    type V = LogEntryView;

    open spec fn view(&self) -> LogEntryView {
        match *self {
            LogEntry::Put { collection, key, value } => LogEntryView::Put {
                collection: collection@,
                key: key@,
                value: value@,
            },
            LogEntry::Get { collection, key } => LogEntryView::Get {
                collection: collection@,
                key: key@,
            },
            LogEntry::Delete { collection, key } => LogEntryView::Delete {
                collection: collection@,
                key: key@,
            },
            LogEntry::BatchPut { collection, pairs } => LogEntryView::BatchPut {
                collection: collection@,
                pairs: pairs_of(pairs@),
            },
            LogEntry::CreateTicket { body, index } => LogEntryView::CreateTicket {
                body: body@,
                index: index@,
            },
            LogEntry::UpdateTicket { ticket_id, body, index } => LogEntryView::UpdateTicket {
                ticket_id,
                body: body@,
                index: index@,
            },
            LogEntry::SoftDeleteTicket { ticket_id, at_unix } => LogEntryView::SoftDeleteTicket {
                ticket_id,
                at_unix,
            },
            LogEntry::CreateUser { user_uuid, body, index } => LogEntryView::CreateUser {
                user_uuid: user_uuid@,
                body: body@,
                index: index@,
            },
            LogEntry::UpdateUser { user_uuid, body, index } => LogEntryView::UpdateUser {
                user_uuid: user_uuid@,
                body: body@,
                index: index@,
            },
            LogEntry::SoftDeleteUser { user_uuid, at_unix } => LogEntryView::SoftDeleteUser {
                user_uuid: user_uuid@,
                at_unix,
            },
        }
    }
}

/// What applying an operation comes to.
pub enum Outcome {
    /// Storage afterwards, and the payload for the client.
    Done(Held, Option<Seq<u8>>),
    /// The row it speaks of does not exist.
    NotFound,
    /// The row it speaks of cannot be read.
    Corrupt,
}

/// The outcome of rewriting a ticket's row.
pub open spec fn ticket_outcome(held: Held, id: u64, change: spec_fn(TicketView) -> TicketView) -> Outcome {
    match lookup_ticket(held, id) {
        Lookup::Found(before) => Outcome::Done(
            ticket_rewritten(held, id, before, change(before)),
            None,
        ),
        Lookup::Missing => Outcome::NotFound,
        Lookup::Corrupt => Outcome::Corrupt,
    }
}

/// The outcome of rewriting a user's row.
pub open spec fn user_outcome(
    held: Held,
    user_uuid: Seq<char>,
    change: spec_fn(UserView) -> UserView,
) -> Outcome {
    match lookup_user(held, user_uuid) {
        Lookup::Found(before) => Outcome::Done(
            user_rewritten(held, user_uuid, before, change(before)),
            None,
        ),
        Lookup::Missing => Outcome::NotFound,
        Lookup::Corrupt => Outcome::Corrupt,
    }
}

/// What applying `entry` to storage comes to. It depends on nothing but the two.
pub open spec fn outcome(held: Held, entry: LogEntryView) -> Outcome {
    match entry {
        LogEntryView::Put { collection, key, value } => Outcome::Done(
            held.insert((collection, key), value),
            None,
        ),
        LogEntryView::Get { .. } => Outcome::Done(held, None),
        LogEntryView::Delete { collection, key } => Outcome::Done(
            held.remove((collection, key)),
            None,
        ),
        LogEntryView::BatchPut { collection, pairs } => Outcome::Done(
            after_writes(held, collection, pair_writes(pairs)),
            None,
        ),
        LogEntryView::CreateTicket { body, index } => Outcome::Done(
            ticket_created(held, body, index),
            Some(be8(next_counter_value(held, encode_utf8(SEQ_TICKET@)))),
        ),
        LogEntryView::UpdateTicket { ticket_id, body, index } => ticket_outcome(
            held,
            ticket_id,
            |before: TicketView| TicketView { body: body, index: index, ..before },
        ),
        LogEntryView::SoftDeleteTicket { ticket_id, at_unix } => ticket_outcome(
            held,
            ticket_id,
            |before: TicketView| TicketView { deleted: true, deleted_at_unix: at_unix, ..before },
        ),
        LogEntryView::CreateUser { user_uuid, body, index } => Outcome::Done(
            user_created(held, user_uuid, body, index),
            None,
        ),
        LogEntryView::UpdateUser { user_uuid, body, index } => user_outcome(
            held,
            user_uuid,
            |before: UserView| UserView { body: body, index: index, ..before },
        ),
        LogEntryView::SoftDeleteUser { user_uuid, at_unix } => user_outcome(
            held,
            user_uuid,
            |before: UserView| UserView { deleted: true, deleted_at_unix: at_unix, ..before },
        ),
    }
}

/// The operation writes to tickets and their indexes, if at all, as to tickets: its collection is
/// neither the tickets, nor one of their indexes, nor the counters.
pub open spec fn keeps_apart(entry: LogEntryView) -> bool {
    match entry {
        LogEntryView::Put { collection, .. } => !is_ticket_tree(collection),
        LogEntryView::Delete { collection, .. } => !is_ticket_tree(collection),
        LogEntryView::BatchPut { collection, .. } => !is_ticket_tree(collection),
        _ => true,
    }
}

/// A collection that tickets are kept by.
pub open spec fn is_ticket_tree(tree: Seq<char>) -> bool {
    tree == TREE_TICKETS@ || is_ticket_index(tree) || tree == TREE_SEQ@
}

/// An operation that keeps apart from tickets leaves them and their indexes as they are.
proof fn apart_from_tickets(held: Held, now: Held, entry: LogEntryView)
    requires
        keeps_apart(entry),
        entry is Put || entry is Get || entry is Delete || entry is BatchPut || entry is CreateUser
            || entry is UpdateUser || entry is SoftDeleteUser,
        outcome(held, entry) matches Outcome::Done(after, _) && after == now,
    ensures
        same_tickets(held, now),
{
    row_trees_apart();
    index_names_apart();
    assert forall|at: (Seq<char>, Seq<u8>)|
        (at.0 == TREE_TICKETS@ || is_ticket_index(at.0)) implies (#[trigger] now.contains_key(at)
            == held.contains_key(at)) && (held.contains_key(at) ==> now[at] == held[at]) by {
        assert(!is_user_index(at.0));
        match entry {
            LogEntryView::CreateUser { user_uuid, body, index } => {
                if is_entry(user_index_values(index), encode_utf8(user_uuid), at) {
                    user_entries_in_indexes(index, encode_utf8(user_uuid), at);
                }
            },
            LogEntryView::UpdateUser { user_uuid, body, index } => {
                let before = lookup_user(held, user_uuid)->Found_0;
                if is_entry(user_index_values(index), encode_utf8(user_uuid), at) {
                    user_entries_in_indexes(index, encode_utf8(user_uuid), at);
                }
                if is_entry(user_index_values(before.index), encode_utf8(user_uuid), at) {
                    user_entries_in_indexes(before.index, encode_utf8(user_uuid), at);
                }
            },
            LogEntryView::SoftDeleteUser { user_uuid, at_unix } => {
                let before = lookup_user(held, user_uuid)->Found_0;
                if is_entry(user_index_values(before.index), encode_utf8(user_uuid), at) {
                    user_entries_in_indexes(before.index, encode_utf8(user_uuid), at);
                }
            },
            _ => {},
        }
    }
}

/// The operation writes to users and their indexes, if at all, as to users, and it creates a user
/// only under a plain name that is not taken.
pub open spec fn keeps_users_apart(held: Held, entry: LogEntryView) -> bool {
    match entry {
        LogEntryView::Put { collection, .. } => !is_user_tree(collection),
        LogEntryView::Delete { collection, .. } => !is_user_tree(collection),
        LogEntryView::BatchPut { collection, .. } => !is_user_tree(collection),
        LogEntryView::CreateUser { user_uuid, .. } => is_plain(user_uuid) && lookup_user(
            held,
            user_uuid,
        ) is Missing,
        _ => true,
    }
}

/// A collection that users are kept by.
pub open spec fn is_user_tree(tree: Seq<char>) -> bool {
    tree == TREE_USERS@ || is_user_index(tree)
}

/// An operation on anything but users leaves them and their indexes as they are.
proof fn apart_from_users(held: Held, now: Held, entry: LogEntryView)
    requires
        keeps_users_apart(held, entry),
        !(entry is CreateUser || entry is UpdateUser || entry is SoftDeleteUser),
        outcome(held, entry) matches Outcome::Done(after, _) && after == now,
    ensures
        same_users(held, now),
{
    row_trees_apart();
    index_names_apart();
    assert forall|at: (Seq<char>, Seq<u8>)|
        (at.0 == TREE_USERS@ || is_user_index(at.0)) implies (#[trigger] now.contains_key(at)
            == held.contains_key(at)) && (held.contains_key(at) ==> now[at] == held[at]) by {
        assert(!is_ticket_index(at.0));
        match entry {
            LogEntryView::CreateTicket { body, index } => {
                let id = next_counter_value(held, encode_utf8(SEQ_TICKET@));
                if is_entry(ticket_index_values(index), be8(id), at) {
                    ticket_entries_in_indexes(index, be8(id), at);
                }
            },
            LogEntryView::UpdateTicket { ticket_id, body, index } => {
                let before = lookup_ticket(held, ticket_id)->Found_0;
                if is_entry(ticket_index_values(index), be8(ticket_id), at) {
                    ticket_entries_in_indexes(index, be8(ticket_id), at);
                }
                if is_entry(ticket_index_values(before.index), be8(ticket_id), at) {
                    ticket_entries_in_indexes(before.index, be8(ticket_id), at);
                }
            },
            LogEntryView::SoftDeleteTicket { ticket_id, at_unix } => {
                let before = lookup_ticket(held, ticket_id)->Found_0;
                if is_entry(ticket_index_values(before.index), be8(ticket_id), at) {
                    ticket_entries_in_indexes(before.index, be8(ticket_id), at);
                }
            },
            _ => {},
        }
    }
}

/// An operation that creates no ticket leaves the next id fresh.
proof fn counter_stays_ahead(held: Held, now: Held, entry: LogEntryView)
    requires
        keeps_apart(entry),
        !(entry is CreateTicket),
        ids_below_counter(held),
        outcome(held, entry) matches Outcome::Done(after, _) && after == now,
    ensures
        ids_below_counter(now),
{
    row_trees_apart();
    index_names_apart();
    let name = encode_utf8(SEQ_TICKET@);
    assert forall|at: (Seq<char>, Seq<u8>)|
        at.0 == TREE_SEQ@ || at.0 == TREE_TICKETS@ implies #[trigger] now.contains_key(at)
        == held.contains_key(at) && (at.0 == TREE_SEQ@ && held.contains_key(at) ==> now[at]
        == held[at]) by {
        assert(!is_ticket_index(at.0) && !is_user_index(at.0));
        match entry {
            LogEntryView::UpdateTicket { ticket_id, body, index } => {
                let before = lookup_ticket(held, ticket_id)->Found_0;
                if is_entry(ticket_index_values(index), be8(ticket_id), at) {
                    ticket_entries_in_indexes(index, be8(ticket_id), at);
                }
                if is_entry(ticket_index_values(before.index), be8(ticket_id), at) {
                    ticket_entries_in_indexes(before.index, be8(ticket_id), at);
                }
            },
            LogEntryView::SoftDeleteTicket { ticket_id, at_unix } => {
                let before = lookup_ticket(held, ticket_id)->Found_0;
                if is_entry(ticket_index_values(before.index), be8(ticket_id), at) {
                    ticket_entries_in_indexes(before.index, be8(ticket_id), at);
                }
            },
            LogEntryView::CreateUser { user_uuid, body, index } => {
                if is_entry(user_index_values(index), encode_utf8(user_uuid), at) {
                    user_entries_in_indexes(index, encode_utf8(user_uuid), at);
                }
            },
            LogEntryView::UpdateUser { user_uuid, body, index } => {
                let before = lookup_user(held, user_uuid)->Found_0;
                if is_entry(user_index_values(index), encode_utf8(user_uuid), at) {
                    user_entries_in_indexes(index, encode_utf8(user_uuid), at);
                }
                if is_entry(user_index_values(before.index), encode_utf8(user_uuid), at) {
                    user_entries_in_indexes(before.index, encode_utf8(user_uuid), at);
                }
            },
            LogEntryView::SoftDeleteUser { user_uuid, at_unix } => {
                let before = lookup_user(held, user_uuid)->Found_0;
                if is_entry(user_index_values(before.index), encode_utf8(user_uuid), at) {
                    user_entries_in_indexes(before.index, encode_utf8(user_uuid), at);
                }
            },
            _ => {},
        }
    }
    assert(now.contains_key(counter_at(name)) == held.contains_key(counter_at(name)));
    assert forall|id: u64| #[trigger] now.contains_key(ticket_at(id)) implies id
        < next_counter_value(now, name) by {
        assert(held.contains_key(ticket_at(id)));
    }
}

/// Storage after `entries` were applied in order; an operation that fails leaves it as it is.
pub open spec fn replayed(held: Held, entries: Seq<LogEntryView>) -> Held
    decreases entries.len(),
{
    if entries.len() == 0 {
        held
    } else {
        let before = replayed(held, entries.drop_last());
        match outcome(before, entries.last()) {
            Outcome::Done(after, _) => after,
            _ => before,
        }
    }
}

/// Replaying a log in two parts comes to the same as replaying it whole: a node that stopped and
/// caught up later holds what its peers hold.
pub proof fn replay_in_parts(held: Held, first: Seq<LogEntryView>, rest: Seq<LogEntryView>)
    ensures
        replayed(held, first + rest) == replayed(replayed(held, first), rest),
    decreases rest.len(),
{
    if rest.len() == 0 {
        assert(first + rest =~= first);
    } else {
        assert((first + rest).drop_last() =~= first + rest.drop_last());
        replay_in_parts(held, first, rest.drop_last());
    }
}

/// The row that an operation writes is found afterwards.
pub open spec fn row_is_found(held: Held, now: Held, entry: LogEntryView) -> bool {
    match entry {
        LogEntryView::CreateTicket { body, index } => lookup_ticket(
            now,
            next_counter_value(held, encode_utf8(SEQ_TICKET@)),
        ) == Lookup::Found(new_ticket(body, index)),
        LogEntryView::UpdateTicket { ticket_id, body, index } => lookup_ticket(
            held,
            ticket_id,
        ) matches Lookup::Found(before) && lookup_ticket(now, ticket_id) == Lookup::Found(
            TicketView { body, index, ..before },
        ),
        LogEntryView::SoftDeleteTicket { ticket_id, at_unix } => lookup_ticket(
            held,
            ticket_id,
        ) matches Lookup::Found(before) && lookup_ticket(now, ticket_id) == Lookup::Found(
            TicketView { deleted: true, deleted_at_unix: at_unix, ..before },
        ),
        LogEntryView::CreateUser { user_uuid, body, index } => lookup_user(now, user_uuid)
            == Lookup::Found(new_user(body, index)),
        LogEntryView::UpdateUser { user_uuid, body, index } => lookup_user(
            held,
            user_uuid,
        ) matches Lookup::Found(before) && lookup_user(now, user_uuid) == Lookup::Found(
            UserView { body, index, ..before },
        ),
        LogEntryView::SoftDeleteUser { user_uuid, at_unix } => lookup_user(
            held,
            user_uuid,
        ) matches Lookup::Found(before) && lookup_user(now, user_uuid) == Lookup::Found(
            UserView { deleted: true, deleted_at_unix: at_unix, ..before },
        ),
        _ => true,
    }
}

impl LogEntry {
    /// Applies this operation to storage.
    ///
    /// The payload for the client is the big-endian id of a created ticket, and `None` otherwise.
    pub fn apply(&self, storage: &mut Storage) -> (out: Result<Option<Vec<u8>>, StorageError>)
        ensures
            match out {
                Ok(value) => outcome(old(storage)@, self@) == Outcome::Done(
                    final(storage)@,
                    blob_of(value),
                ),
                Err(StorageError::NotFound(_)) => outcome(old(storage)@, self@) is NotFound
                    && final(storage)@ == old(storage)@,
                Err(StorageError::Corrupt(_)) => outcome(old(storage)@, self@) is Corrupt
                    && final(storage)@ == old(storage)@,
                Err(StorageError::Backend(_)) => true,
            },
            out is Ok ==> row_is_found(old(storage)@, final(storage)@, self@),
            self is Get ==> (out matches Ok(None) && final(storage)@ == old(storage)@),
            out is Ok && keeps_apart(self@) && tickets_consistent(old(storage)@)
                && ids_below_counter(old(storage)@) ==> {
                &&& tickets_consistent(final(storage)@)
                &&& next_counter_value(old(storage)@, encode_utf8(SEQ_TICKET@)) < u64::MAX
                    ==> ids_below_counter(final(storage)@)
            },
            out is Ok && keeps_users_apart(old(storage)@, self@) && users_consistent(
                old(storage)@,
            ) ==> users_consistent(final(storage)@),
    {
        let ghost before = storage@;
        let value: Option<Vec<u8>> = match self {
            LogEntry::Put { collection, key, value } => {
                storage.put(collection.as_str(), key.as_slice(), value.as_slice())?;
                None
            },
            LogEntry::Get { .. } => None,
            LogEntry::Delete { collection, key } => {
                storage.delete(collection.as_str(), key.as_slice())?;
                None
            },
            LogEntry::BatchPut { collection, pairs } => {
                storage.batch_put(collection.as_str(), pairs)?;
                None
            },
            LogEntry::CreateTicket { body, index } => {
                let id: u64 = storage.create_ticket(body.as_slice(), index)?;
                Some(to_be8(id))
            },
            LogEntry::UpdateTicket { ticket_id, body, index } => {
                storage.update_ticket(*ticket_id, body.as_slice(), index)?;
                None
            },
            LogEntry::SoftDeleteTicket { ticket_id, at_unix } => {
                storage.soft_delete_ticket(*ticket_id, *at_unix)?;
                None
            },
            LogEntry::CreateUser { user_uuid, body, index } => {
                storage.create_user(user_uuid.as_str(), body.as_slice(), index)?;
                None
            },
            LogEntry::UpdateUser { user_uuid, body, index } => {
                storage.update_user(user_uuid.as_str(), body.as_slice(), index)?;
                None
            },
            LogEntry::SoftDeleteUser { user_uuid, at_unix } => {
                storage.soft_delete_user(user_uuid.as_str(), *at_unix)?;
                None
            },
        };
        proof {
            let of_ticket = self is CreateTicket || self is UpdateTicket || self
                is SoftDeleteTicket;
            let of_user = self is CreateUser || self is UpdateUser || self is SoftDeleteUser;
            if keeps_apart(self@) && tickets_consistent(before) && ids_below_counter(before) {
                if !of_ticket {
                    apart_from_tickets(before, storage@, self@);
                    other_changes_keep_consistency(before, storage@);
                }
                if !(self is CreateTicket) {
                    counter_stays_ahead(before, storage@, self@);
                }
            }
            if keeps_users_apart(before, self@) && users_consistent(before) && !of_user {
                apart_from_users(before, storage@, self@);
                other_changes_keep_users_consistent(before, storage@);
            }
        }
        Ok(value)
    }
}

} // verus!
