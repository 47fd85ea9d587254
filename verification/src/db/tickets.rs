//! Ticket rows and the indexes over them.

use vstd::prelude::*;
use vstd::utf8::encode_utf8;

use crate::bytes::{be8, read_be8};
use crate::db::consistency::{
    are_tickets_under, creating_keeps_consistency, ids_below_counter, is_answer, is_unmistakable_in,
    listing_gives_the_tickets, query_finds_what_it_asks_for, rewriting_keeps_consistency,
    tickets_consistent,
};
use crate::db::rows::{
    index_names_apart, is_ticket_index, ticket_index_values, StoredTicket, TicketIndexFields,
    TicketView, IDX_TICKET_ACCOUNT, IDX_TICKET_ASSIGNEE, IDX_TICKET_PROJECT, IDX_TICKET_STATUS,
};
use crate::db::storage::{
    answer, are_candidates, at_most, index_prefix, index_prefix_of, is_entry, is_full, key_ids,
    listing_by_same_rule, lookup_ticket, new_ticket, next_counter_value, no_ticket, no_ticket_text,
    query_matches, read_ticket, ticket_at, ticket_bytes, ticket_created, ticket_in, ticket_in_row,
    ticket_rewritten, tickets_of, value_ids, Held, Lookup, Storage, StorageError, TicketQuery,
    SEQ_TICKET, TREE_SEQ, TREE_TICKETS, TREE_USERS,
};
use crate::store::{any_key, is_listing, pairs_of, starting_with};
use crate::text::{blob_of, copy_bytes, same};

verus! {

/// The row collections and the counters are none of the indexes, and they are distinct.
pub proof fn row_trees_apart()
    ensures
        !is_ticket_index(TREE_TICKETS@),
        !is_ticket_index(TREE_USERS@),
        !is_ticket_index(TREE_SEQ@),
        !crate::db::rows::is_user_index(TREE_TICKETS@),
        !crate::db::rows::is_user_index(TREE_USERS@),
        !crate::db::rows::is_user_index(TREE_SEQ@),
        TREE_TICKETS@ != TREE_USERS@,
        TREE_TICKETS@ != TREE_SEQ@,
        TREE_USERS@ != TREE_SEQ@,
{
    index_names_apart();
    reveal_strlit("tickets");
    reveal_strlit("users");
    reveal_strlit("seq");
    assert(TREE_TICKETS@.len() == 7);
    assert(TREE_USERS@.len() == 5);
    assert(TREE_SEQ@.len() == 3);
}

/// The index entries of a ticket stand in the ticket indexes.
pub proof fn ticket_entries_in_indexes(
    index: crate::db::rows::TicketIndexView,
    entity: Seq<u8>,
    at: (Seq<char>, Seq<u8>),
)
    requires
        is_entry(ticket_index_values(index), entity, at),
    ensures
        is_ticket_index(at.0),
{
    let values = ticket_index_values(index);
    let i = choose|i: int|
        0 <= i < values.len() && at == ((#[trigger] values[i]).0, crate::db::storage::index_key_of(
            values[i].1,
            entity,
        ));
    assert(is_ticket_index(values[i].0));
}

/// Writing a ticket's row and entries leaves the row to be found.
proof fn rewritten_row_is_found(held: Held, id: u64, before: TicketView, after: TicketView)
    requires
        ticket_in(ticket_bytes(after)) == Some(after),
    ensures
        lookup_ticket(ticket_rewritten(held, id, before, after), id) == Lookup::Found(after),
{
    row_trees_apart();
    if is_entry(ticket_index_values(after.index), be8(id), ticket_at(id)) {
        ticket_entries_in_indexes(after.index, be8(id), ticket_at(id));
    }
}

/// Creating a ticket leaves its row to be found.
proof fn created_row_is_found(held: Held, body: Seq<u8>, index: crate::db::rows::TicketIndexView)
    requires
        ticket_in(ticket_bytes(new_ticket(body, index))) == Some(new_ticket(body, index)),
    ensures
        lookup_ticket(
            ticket_created(held, body, index),
            next_counter_value(held, encode_utf8(SEQ_TICKET@)),
        ) == Lookup::Found(new_ticket(body, index)),
{
    row_trees_apart();
    let id = next_counter_value(held, encode_utf8(SEQ_TICKET@));
    if is_entry(ticket_index_values(index), be8(id), ticket_at(id)) {
        ticket_entries_in_indexes(index, be8(id), ticket_at(id));
    }
}

/// A query that is full looks at nothing more.
proof fn full_answer_stays(held: Held, query: TicketQuery, ids: Seq<u64>, n: nat, m: nat)
    requires
        n <= m,
        answer(held, query, ids, n) matches Some(found) && is_full(query, found.len()),
    ensures
        answer(held, query, ids, m) == answer(held, query, ids, n),
    decreases m,
{
    if n < m {
        full_answer_stays(held, query, ids, n, (m - 1) as nat);
    }
}

/// A query that met a corrupt row gives nothing.
proof fn failed_answer_stays(held: Held, query: TicketQuery, ids: Seq<u64>, n: nat, m: nat)
    requires
        n <= m,
        answer(held, query, ids, n) is None,
    ensures
        answer(held, query, ids, m) is None,
    decreases m,
{
    if n < m {
        failed_answer_stays(held, query, ids, n, (m - 1) as nat);
    }
}

/// Whether a ticket meets every field that the query sets.
pub fn matches_query(query: &TicketQuery, stored: &StoredTicket) -> (out: bool)
    ensures
        out == query_matches(*query, stored@),
{
    match query.status {
        Some(status) => {
            if stored.index.status != status {
                return false;
            }
        },
        None => {},
    }
    match &query.assigned_to_uuid {
        Some(assignee) => match &stored.index.assigned_to_uuid {
            Some(actual) => {
                if !same(actual.as_str(), assignee.as_str()) {
                    return false;
                }
            },
            None => {
                return false;
            },
        },
        None => {},
    }
    match &query.account_uuid {
        Some(account) => {
            if !same(stored.index.account_uuid.as_str(), account.as_str()) {
                return false;
            }
        },
        None => {},
    }
    match &query.project {
        Some(project) => {
            if !same(stored.index.project.as_str(), project.as_str()) {
                return false;
            }
        },
        None => {},
    }
    true
}

/// The ticket of a row as it is shown: a deleted one only where it is asked for.
pub fn shown_ticket(row: Option<Vec<u8>>, include_deleted: bool) -> (out: Result<
    Option<StoredTicket>,
    StorageError,
>)
    ensures
        match ticket_in_row(blob_of(row)) {
            Lookup::Found(t) => if t.deleted && !include_deleted {
                out matches Ok(None)
            } else {
                out matches Ok(Some(stored)) && stored@ == t
            },
            Lookup::Missing => out matches Ok(None),
            Lookup::Corrupt => out matches Err(StorageError::Corrupt(_)),
        },
{
    match read_ticket(row)? {
        Some(stored) => if stored.deleted && !include_deleted {
            Ok(None)
        } else {
            Ok(Some(stored))
        },
        None => Ok(None),
    }
}

/// The ticket of a row before and after an update. A deleted ticket stays deleted.
pub fn updated_ticket(
    id: u64,
    row: Option<Vec<u8>>,
    body: &[u8],
    index: &TicketIndexFields,
) -> (out: Result<(StoredTicket, StoredTicket), StorageError>)
    ensures
        match ticket_in_row(blob_of(row)) {
            Lookup::Found(t) => out matches Ok((before, after)) && before@ == t && after@ == (
            TicketView { body: body@, index: index@, ..t }),
            Lookup::Missing => out matches Err(StorageError::NotFound(text)) && text@
                == no_ticket_text(id),
            Lookup::Corrupt => out matches Err(StorageError::Corrupt(_)),
        },
{
    match read_ticket(row)? {
        Some(before) => {
            let after = StoredTicket {
                body: copy_bytes(body),
                index: index.copy(),
                deleted: before.deleted,
                deleted_at_unix: before.deleted_at_unix,
            };
            assert(after@ == (TicketView { body: body@, index: index@, ..before@ }));
            Ok((before, after))
        },
        None => Err(no_ticket(id)),
    }
}

/// The ticket of a row before and after its deletion at `at_unix`.
pub fn deleted_ticket(id: u64, row: Option<Vec<u8>>, at_unix: i64) -> (out: Result<
    (StoredTicket, StoredTicket),
    StorageError,
>)
    ensures
        match ticket_in_row(blob_of(row)) {
            Lookup::Found(t) => out matches Ok((before, after)) && before@ == t && after@ == (
            TicketView { deleted: true, deleted_at_unix: at_unix, ..t }),
            Lookup::Missing => out matches Err(StorageError::NotFound(text)) && text@
                == no_ticket_text(id),
            Lookup::Corrupt => out matches Err(StorageError::Corrupt(_)),
        },
{
    match read_ticket(row)? {
        Some(before) => {
            let after = StoredTicket {
                body: copy_bytes(before.body.as_slice()),
                index: before.index.copy(),
                deleted: true,
                deleted_at_unix: at_unix,
            };
            assert(after@ == (TicketView { deleted: true, deleted_at_unix: at_unix, ..before@ }));
            Ok((before, after))
        },
        None => Err(no_ticket(id)),
    }
}

/// The ticket of a row where a query asks for it.
pub fn queried_ticket(row: Option<Vec<u8>>, query: &TicketQuery) -> (out: Result<
    Option<StoredTicket>,
    StorageError,
>)
    ensures
        match ticket_in_row(blob_of(row)) {
            Lookup::Found(t) => if (t.deleted && !query.include_deleted) || !query_matches(
                *query,
                t,
            ) {
                out matches Ok(None)
            } else {
                out matches Ok(Some(stored)) && stored@ == t
            },
            Lookup::Missing => out matches Ok(None),
            Lookup::Corrupt => out matches Err(StorageError::Corrupt(_)),
        },
{
    match shown_ticket(row, query.include_deleted)? {
        Some(stored) => if matches_query(query, &stored) {
            Ok(Some(stored))
        } else {
            Ok(None)
        },
        None => Ok(None),
    }
}

/// The ids among the keys of a listing, in order; a key that is no id is passed over.
pub fn ids_in_keys(pairs: &Vec<(Vec<u8>, Vec<u8>)>) -> (out: Vec<u64>)
    ensures
        out@ == key_ids(pairs_of(pairs@)),
{
    let ghost list = pairs_of(pairs@);
    let mut ids: Vec<u64> = Vec::new();
    let mut i: usize = 0;
    assert(list.take(0) =~= Seq::empty());
    while i < pairs.len()
        invariant
            i <= pairs@.len(),
            list == pairs_of(pairs@),
            ids@ == key_ids(list.take(i as int)),
        decreases pairs@.len() - i,
    {
        assert(list.take(i + 1).drop_last() =~= list.take(i as int));
        match read_be8(pairs[i].0.as_slice()) {
            Some(id) => {
                ids.push(id);
            },
            None => {},
        }
        i = i + 1;
    }
    assert(list.take(i as int) =~= list);
    ids
}

/// The ids among the values of a listing, in order; a value that is no id is passed over.
pub fn ids_in_values(pairs: &Vec<(Vec<u8>, Vec<u8>)>) -> (out: Vec<u64>)
    ensures
        out@ == value_ids(pairs_of(pairs@)),
{
    let ghost list = pairs_of(pairs@);
    let mut ids: Vec<u64> = Vec::new();
    let mut i: usize = 0;
    assert(list.take(0) =~= Seq::empty());
    while i < pairs.len()
        invariant
            i <= pairs@.len(),
            list == pairs_of(pairs@),
            ids@ == value_ids(list.take(i as int)),
        decreases pairs@.len() - i,
    {
        assert(list.take(i + 1).drop_last() =~= list.take(i as int));
        match read_be8(pairs[i].1.as_slice()) {
            Some(id) => {
                ids.push(id);
            },
            None => {},
        }
        i = i + 1;
    }
    assert(list.take(i as int) =~= list);
    ids
}

impl Storage {
    /// Creates a ticket from an encrypted body and plaintext index fields, and gives its id.
    pub fn create_ticket(&mut self, body: &[u8], index: &TicketIndexFields) -> (out: Result<
        u64,
        StorageError,
    >)
        ensures
            out matches Ok(id) ==> {
                &&& id == next_counter_value(old(self)@, encode_utf8(SEQ_TICKET@))
                &&& final(self)@ == ticket_created(old(self)@, body@, index@)
                &&& lookup_ticket(final(self)@, id) == Lookup::Found(new_ticket(body@, index@))
                &&& tickets_consistent(old(self)@) && ids_below_counter(old(self)@) ==> {
                    &&& tickets_consistent(final(self)@)
                    &&& lookup_ticket(old(self)@, id) is Missing
                    &&& id < u64::MAX ==> ids_below_counter(final(self)@)
                }
            },
            out matches Err(e) ==> e is Backend,
    {
        let id: u64 = self.next_id(SEQ_TICKET.as_bytes())?;
        let stored = StoredTicket {
            body: copy_bytes(body),
            index: index.copy(),
            deleted: false,
            deleted_at_unix: 0,
        };
        self.write_ticket_row(id, &stored)?;
        self.write_ticket_indexes(id, index, true)?;
        proof {
            assert(stored@ == new_ticket(body@, index@));
            created_row_is_found(old(self)@, body@, index@);
            if tickets_consistent(old(self)@) && ids_below_counter(old(self)@) {
                creating_keeps_consistency(old(self)@, body@, index@);
            }
        }
        Ok(id)
    }

    /// Reads a stored ticket: `None` if it is missing, or deleted and `include_deleted` is not set.
    pub fn get_ticket(&self, id: u64, include_deleted: bool) -> (out: Result<
        Option<StoredTicket>,
        StorageError,
    >)
        ensures
            match out {
                Ok(Some(t)) => lookup_ticket(self@, id) == Lookup::Found(t@) && (t.deleted
                    ==> include_deleted),
                Ok(None) => lookup_ticket(self@, id) is Missing || (lookup_ticket(self@, id)
                    matches Lookup::Found(t) && t.deleted && !include_deleted),
                Err(StorageError::Corrupt(_)) => lookup_ticket(self@, id) is Corrupt,
                Err(e) => e is Backend,
            },
    {
        shown_ticket(self.ticket_row(id)?, include_deleted)
    }

    /// Updates an existing ticket and points its index entries anew. A deleted ticket stays
    /// deleted and out of the indexes.
    pub fn update_ticket(&mut self, id: u64, body: &[u8], index: &TicketIndexFields) -> (out: Result<
        (),
        StorageError,
    >)
        ensures
            match out {
                Ok(()) => lookup_ticket(old(self)@, id) matches Lookup::Found(before) && {
                    let after = TicketView { body: body@, index: index@, ..before };
                    &&& final(self)@ == ticket_rewritten(old(self)@, id, before, after)
                    &&& lookup_ticket(final(self)@, id) == Lookup::Found(after)
                    &&& tickets_consistent(old(self)@) ==> tickets_consistent(final(self)@)
                },
                Err(StorageError::NotFound(text)) => lookup_ticket(old(self)@, id) is Missing
                    && text@ == no_ticket_text(id) && final(self)@ == old(self)@,
                Err(StorageError::Corrupt(_)) => lookup_ticket(old(self)@, id) is Corrupt
                    && final(self)@ == old(self)@,
                Err(StorageError::Backend(_)) => true,
            },
    {
        let (before, after): (StoredTicket, StoredTicket) = updated_ticket(
            id,
            self.ticket_row(id)?,
            body,
            index,
        )?;
        if !before.deleted {
            self.write_ticket_indexes(id, &before.index, false)?;
        }
        self.write_ticket_row(id, &after)?;
        if !after.deleted {
            self.write_ticket_indexes(id, index, true)?;
        }
        proof {
            rewritten_row_is_found(old(self)@, id, before@, after@);
            if tickets_consistent(old(self)@) {
                rewriting_keeps_consistency(old(self)@, id, before@, after@);
            }
        }
        Ok(())
    }

    /// Marks a ticket deleted at `at_unix` and takes it out of the indexes; its row stays.
    pub fn soft_delete_ticket(&mut self, id: u64, at_unix: i64) -> (out: Result<(), StorageError>)
        ensures
            match out {
                Ok(()) => lookup_ticket(old(self)@, id) matches Lookup::Found(before) && {
                    let after = TicketView { deleted: true, deleted_at_unix: at_unix, ..before };
                    &&& final(self)@ == ticket_rewritten(old(self)@, id, before, after)
                    &&& lookup_ticket(final(self)@, id) == Lookup::Found(after)
                    &&& tickets_consistent(old(self)@) ==> tickets_consistent(final(self)@)
                },
                Err(StorageError::NotFound(text)) => lookup_ticket(old(self)@, id) is Missing
                    && text@ == no_ticket_text(id) && final(self)@ == old(self)@,
                Err(StorageError::Corrupt(_)) => lookup_ticket(old(self)@, id) is Corrupt
                    && final(self)@ == old(self)@,
                Err(StorageError::Backend(_)) => true,
            },
    {
        let (before, after): (StoredTicket, StoredTicket) = deleted_ticket(
            id,
            self.ticket_row(id)?,
            at_unix,
        )?;
        if !before.deleted {
            self.write_ticket_indexes(id, &before.index, false)?;
        }
        self.write_ticket_row(id, &after)?;
        proof {
            rewritten_row_is_found(old(self)@, id, before@, after@);
            if tickets_consistent(old(self)@) {
                rewriting_keeps_consistency(old(self)@, id, before@, after@);
            }
        }
        Ok(())
    }

    /// The ids of all ticket rows, in ascending order.
    pub fn all_ticket_ids(&self) -> (out: Result<Vec<u64>, StorageError>)
        ensures
            out matches Ok(ids) ==> exists|list: Seq<(Seq<u8>, Seq<u8>)>|
                is_listing(self@, TREE_TICKETS@, any_key(), list) && ids@ == #[trigger] key_ids(
                    list,
                ),
            out matches Err(e) ==> e is Backend,
    {
        let empty: Vec<u8> = Vec::new();
        let pairs: Vec<(Vec<u8>, Vec<u8>)> = self.list(TREE_TICKETS, empty.as_slice(), None)?;
        let ghost list = pairs_of(pairs@);
        proof {
            let all = choose|all: Seq<(Seq<u8>, Seq<u8>)>|
                is_listing(self@, TREE_TICKETS@, starting_with(empty@), all) && list
                    == #[trigger] at_most(all, None);
            assert forall|key: Seq<u8>| #[trigger] starting_with(empty@)(key) == any_key()(key) by {
                assert(empty@ =~= key.take(0));
            }
            listing_by_same_rule(self@, TREE_TICKETS@, starting_with(empty@), any_key(), all);
        }
        Ok(ids_in_keys(&pairs))
    }

    /// The ids that an index lists under `value`, in key order.
    pub fn scan_index_ids(&self, tree_name: &str, value: &[u8]) -> (out: Result<
        Vec<u64>,
        StorageError,
    >)
        ensures
            out matches Ok(ids) ==> exists|list: Seq<(Seq<u8>, Seq<u8>)>|
                is_listing(self@, tree_name@, starting_with(index_prefix_of(value@)), list) && ids@
                    == #[trigger] value_ids(list),
            out matches Ok(ids) ==> tickets_consistent(self@) && is_ticket_index(tree_name@)
                && is_unmistakable_in(self@, tree_name@, value@) ==> are_tickets_under(
                self@,
                tree_name@,
                value@,
                ids@,
            ),
            out matches Err(e) ==> e is Backend,
    {
        let prefix: Vec<u8> = index_prefix(value);
        let pairs: Vec<(Vec<u8>, Vec<u8>)> = self.list(tree_name, prefix.as_slice(), None)?;
        let ghost list = pairs_of(pairs@);
        assert(is_listing(self@, tree_name@, starting_with(index_prefix_of(value@)), list)) by {
            let all = choose|all: Seq<(Seq<u8>, Seq<u8>)>|
                is_listing(self@, tree_name@, starting_with(prefix@), all) && list
                    == #[trigger] at_most(all, None);
        }
        proof {
            if tickets_consistent(self@) && is_ticket_index(tree_name@) && is_unmistakable_in(
                self@,
                tree_name@,
                value@,
            ) {
                listing_gives_the_tickets(self@, tree_name@, value@, list);
            }
        }
        Ok(ids_in_values(&pairs))
    }

    /// The tickets that a query looks at.
    fn candidate_ids(&self, query: &TicketQuery) -> (out: Result<Vec<u64>, StorageError>)
        ensures
            out matches Ok(ids) ==> are_candidates(self@, *query, ids@),
            out matches Err(e) ==> e is Backend,
    {
        if query.include_deleted {
            return self.all_ticket_ids();
        }
        if let Some(status) = query.status {
            let mut value: Vec<u8> = Vec::new();
            value.push(status);
            assert(value@ =~= seq![status]);
            return self.scan_index_ids(IDX_TICKET_STATUS, value.as_slice());
        }
        if let Some(assignee) = &query.assigned_to_uuid {
            return self.scan_index_ids(IDX_TICKET_ASSIGNEE, assignee.as_str().as_bytes());
        }
        if let Some(account) = &query.account_uuid {
            return self.scan_index_ids(IDX_TICKET_ACCOUNT, account.as_str().as_bytes());
        }
        if let Some(project) = &query.project {
            return self.scan_index_ids(IDX_TICKET_PROJECT, project.as_str().as_bytes());
        }
        self.all_ticket_ids()
    }

    /// Queries tickets by index and applies the remaining filters to what it finds there.
    ///
    /// With `include_deleted` the indexes, which hold no deleted rows, cannot be used, so all
    /// rows are looked at.
    pub fn query_tickets(&self, query: &TicketQuery) -> (out: Result<
        Vec<(u64, StoredTicket)>,
        StorageError,
    >)
        ensures
            match out {
                Ok(found) => exists|ids: Seq<u64>|
                    are_candidates(self@, *query, ids) && #[trigger] answer(
                        self@,
                        *query,
                        ids,
                        ids.len(),
                    ) == Some(tickets_of(found@)),
                Err(StorageError::Corrupt(_)) => exists|ids: Seq<u64>|
                    are_candidates(self@, *query, ids) && #[trigger] answer(
                        self@,
                        *query,
                        ids,
                        ids.len(),
                    ) is None,
                Err(e) => e is Backend,
            },
            tickets_consistent(self@) ==> match out {
                Ok(found) => is_answer(self@, *query, tickets_of(found@)),
                Err(e) => e is Backend,
            },
    {
        let ids: Vec<u64> = self.candidate_ids(query)?;
        proof {
            if tickets_consistent(self@) {
                query_finds_what_it_asks_for(self@, *query, ids@);
            }
        }
        let mut found: Vec<(u64, StoredTicket)> = Vec::new();
        let mut i: usize = 0;
        assert(tickets_of(found@) =~= Seq::empty());
        while i < ids.len() && !(query.limit > 0 && found.len() >= query.limit)
            invariant
                i <= ids@.len(),
                are_candidates(self@, *query, ids@),
                tickets_consistent(self@) ==> (answer(self@, *query, ids@, ids@.len()) matches Some(
                    found,
                ) && is_answer(self@, *query, found)),
                answer(self@, *query, ids@, i as nat) == Some(tickets_of(found@)),
            decreases ids@.len() - i,
        {
            let id: u64 = ids[i];
            let ghost before = tickets_of(found@);
            assert(before.len() == found@.len());
            let row: Option<Vec<u8>> = self.ticket_row(id)?;
            match queried_ticket(row, query) {
                Ok(Some(stored)) => {
                    let ghost view = stored@;
                    found.push((id, stored));
                    assert(tickets_of(found@) =~= before.push((id, view)));
                },
                Ok(None) => {},
                Err(e) => {
                    proof {
                        if e is Corrupt {
                            assert(answer(self@, *query, ids@, (i + 1) as nat) is None);
                            failed_answer_stays(
                                self@,
                                *query,
                                ids@,
                                (i + 1) as nat,
                                ids@.len(),
                            );
                        }
                    }
                    return Err(e);
                },
            }
            i = i + 1;
        }
        proof {
            assert(tickets_of(found@).len() == found@.len());
            if i < ids@.len() {
                full_answer_stays(self@, *query, ids@, i as nat, ids@.len());
            }
        }
        Ok(found)
    }
}

} // verus!
