//! The indexes agree with the rows, and a query by index finds what a look at every row would.

use vstd::prelude::*;
use vstd::utf8::encode_utf8;

use crate::bytes::{be8, be8_injective, be8_order, be8_round_trip, from_be8, from_be8_round_trip,
    lex_lt, lex_lt_common_prefix};
use crate::db::rows::{
    index_names_apart, is_ticket_index, ticket_index_values, TicketIndexView, TicketView,
    IDX_TICKET_CREATED, IDX_TICKET_STATUS, IDX_TICKET_UPDATED,
};
use crate::db::storage::{
    answer, are_candidates, counter_at, index_key_of, index_prefix_of, is_entry, is_full, key_ids,
    lookup_ticket, new_ticket, next_counter_value, query_index, query_matches, ticket_at,
    ticket_created, ticket_in, ticket_rewritten, value_ids, Held, Lookup, TicketQuery, SEQ_TICKET,
    TREE_TICKETS,
};
use crate::db::tickets::{row_trees_apart, ticket_entries_in_indexes};
use crate::store::{any_key, is_listing, starting_with};

verus! {

/// `at` is where an index entry of the live ticket `id` stands.
pub open spec fn is_live_entry(held: Held, id: u64, at: (Seq<char>, Seq<u8>)) -> bool {
    lookup_ticket(held, id) matches Lookup::Found(t) && !t.deleted && is_entry(
        ticket_index_values(t.index),
        be8(id),
        at,
    )
}

/// Every ticket row can be read, every live ticket is entered in the indexes, and the indexes
/// hold nothing else.
pub open spec fn tickets_consistent(held: Held) -> bool {
    &&& forall|key: Seq<u8>| #[trigger]
        held.contains_key((TREE_TICKETS@, key)) ==> key.len() == 8 && ticket_in(
            held[(TREE_TICKETS@, key)],
        ) is Some
    &&& forall|id: u64, at: (Seq<char>, Seq<u8>)| #[trigger]
        is_live_entry(held, id, at) ==> held.contains_pair(at, be8(id))
    &&& forall|at: (Seq<char>, Seq<u8>)|
        is_ticket_index(at.0) && #[trigger] held.contains_key(at) ==> exists|id: u64|
            is_live_entry(held, id, at)
}

/// No ticket has the id that the counter gives next, or a later one.
pub open spec fn ids_below_counter(held: Held) -> bool {
    forall|id: u64| #[trigger]
        held.contains_key(ticket_at(id)) ==> id < next_counter_value(held, encode_utf8(SEQ_TICKET@))
}

/// The query asks for ticket `id`: it exists, is not hidden by its deletion, and matches.
pub open spec fn is_wanted(held: Held, query: TicketQuery, id: u64) -> bool {
    lookup_ticket(held, id) matches Lookup::Found(t) && (t.deleted ==> query.include_deleted)
        && query_matches(query, t)
}

/// Ticket `id` is among those found.
pub open spec fn has_id(found: Seq<(u64, TicketView)>, id: u64) -> bool {
    exists|i: int| 0 <= i < found.len() && (#[trigger] found[i]).0 == id
}

/// `found` are the first tickets, in the order of their ids, that the query asks for: all of them,
/// or as many as its limit allows.
pub open spec fn is_answer(held: Held, query: TicketQuery, found: Seq<(u64, TicketView)>) -> bool {
    &&& forall|i: int, j: int| 0 <= i < j < found.len() ==> (#[trigger] found[i]).0 < (#[trigger] found[j]).0
    &&& forall|i: int|
        0 <= i < found.len() ==> is_wanted(held, query, (#[trigger] found[i]).0) && lookup_ticket(
            held,
            found[i].0,
        ) == Lookup::Found(found[i].1)
    &&& query.limit > 0 ==> found.len() <= query.limit
    &&& forall|id: u64| #[trigger]
        is_wanted(held, query, id) ==> has_id(found, id) || (is_full(query, found.len()) && forall|
            i: int,
        |
            0 <= i < found.len() ==> (#[trigger] found[i]).0 < id)
}

/// Index keys with entities of one length tell the entities apart.
proof fn same_key_same_entity(v: Seq<u8>, d: Seq<u8>, w: Seq<u8>, e: Seq<u8>)
    requires
        index_key_of(v, d) == index_key_of(w, e),
        d.len() == e.len(),
    ensures
        d == e,
        v == w,
{
    let key = index_key_of(v, d);
    assert(key.skip(key.len() - d.len()) =~= d);
    assert(index_key_of(w, e).skip(key.len() - d.len()) =~= e);
    assert(key.take(key.len() - d.len() - 1) =~= v);
    assert(index_key_of(w, e).take(key.len() - d.len() - 1) =~= w);
}

/// Entries of different tickets stand at different places.
proof fn entries_apart(
    one: TicketIndexView,
    id: u64,
    other: TicketIndexView,
    other_id: u64,
    at: (Seq<char>, Seq<u8>),
)
    requires
        is_entry(ticket_index_values(one), be8(id), at),
        is_entry(ticket_index_values(other), be8(other_id), at),
    ensures
        id == other_id,
{
    let v = ticket_index_values(one);
    let w = ticket_index_values(other);
    let i = choose|i: int|
        0 <= i < v.len() && at == ((#[trigger] v[i]).0, index_key_of(v[i].1, be8(id)));
    let j = choose|j: int|
        0 <= j < w.len() && at == ((#[trigger] w[j]).0, index_key_of(w[j].1, be8(other_id)));
    same_key_same_entity(v[i].1, be8(id), w[j].1, be8(other_id));
    be8_injective(id, other_id);
}

/// Rewriting the row of one ticket leaves the rows of the others.
pub proof fn other_rows_stay(held: Held, id: u64, before: TicketView, after: TicketView, other: u64)
    requires
        other != id,
    ensures
        lookup_ticket(ticket_rewritten(held, id, before, after), other) == lookup_ticket(held, other),
{
    row_trees_apart();
    if be8(id) == be8(other) {
        be8_injective(id, other);
    }
    let at = ticket_at(other);
    if is_entry(ticket_index_values(before.index), be8(id), at) {
        ticket_entries_in_indexes(before.index, be8(id), at);
    }
    if is_entry(ticket_index_values(after.index), be8(id), at) {
        ticket_entries_in_indexes(after.index, be8(id), at);
    }
}

/// Updating or deleting a ticket keeps rows and indexes in agreement.
pub proof fn rewriting_keeps_consistency(
    held: Held,
    id: u64,
    before: TicketView,
    after: TicketView,
)
    requires
        tickets_consistent(held),
        lookup_ticket(held, id) == Lookup::Found(before),
        lookup_ticket(ticket_rewritten(held, id, before, after), id) == Lookup::Found(after),
    ensures
        tickets_consistent(ticket_rewritten(held, id, before, after)),
{
    let now = ticket_rewritten(held, id, before, after);
    row_trees_apart();
    assert forall|key: Seq<u8>| #[trigger] now.contains_key((TREE_TICKETS@, key)) implies key.len()
        == 8 && ticket_in(now[(TREE_TICKETS@, key)]) is Some by {
        let at = (TREE_TICKETS@, key);
        if is_entry(ticket_index_values(before.index), be8(id), at) {
            ticket_entries_in_indexes(before.index, be8(id), at);
        }
        if is_entry(ticket_index_values(after.index), be8(id), at) {
            ticket_entries_in_indexes(after.index, be8(id), at);
        }
        if key == be8(id) {
            assert(at == ticket_at(id));
            assert(lookup_ticket(now, id) is Found);
        } else {
            assert(held.contains_key(at));
            assert(now[at] == held[at]);
        }
    }
    assert forall|other: u64, at: (Seq<char>, Seq<u8>)| #[trigger]
        is_live_entry(now, other, at) implies now.contains_pair(at, be8(other)) by {
        let t = lookup_ticket(now, other)->Found_0;
        ticket_entries_in_indexes(t.index, be8(other), at);
        if other == id {
            assert(t == after);
        } else {
            other_rows_stay(held, id, before, after, other);
            assert(is_live_entry(held, other, at));
            if is_entry(ticket_index_values(before.index), be8(id), at) {
                entries_apart(before.index, id, t.index, other, at);
            }
            if is_entry(ticket_index_values(after.index), be8(id), at) {
                entries_apart(after.index, id, t.index, other, at);
            }
        }
    }
    assert forall|at: (Seq<char>, Seq<u8>)|
        is_ticket_index(at.0) && #[trigger] now.contains_key(at) implies exists|other: u64|
            is_live_entry(now, other, at) by {
        if !after.deleted && is_entry(ticket_index_values(after.index), be8(id), at) {
            assert(is_live_entry(now, id, at));
        } else {
            assert(held.contains_key(at));
            let other = choose|other: u64| is_live_entry(held, other, at);
            if other == id {
                assert(is_entry(ticket_index_values(before.index), be8(id), at));
                assert(!before.deleted);
                assert(false);
            }
            other_rows_stay(held, id, before, after, other);
            assert(is_live_entry(now, other, at));
        }
    }
}

/// Creating a ticket keeps rows and indexes in agreement, and its id is none that was given out
/// before; short of the last id there is, the next one will be fresh as well.
pub proof fn creating_keeps_consistency(held: Held, body: Seq<u8>, index: TicketIndexView)
    requires
        tickets_consistent(held),
        ids_below_counter(held),
        lookup_ticket(
            ticket_created(held, body, index),
            next_counter_value(held, encode_utf8(SEQ_TICKET@)),
        ) == Lookup::Found(new_ticket(body, index)),
    ensures
        tickets_consistent(ticket_created(held, body, index)),
        lookup_ticket(held, next_counter_value(held, encode_utf8(SEQ_TICKET@))) is Missing,
        next_counter_value(held, encode_utf8(SEQ_TICKET@)) < u64::MAX ==> ids_below_counter(
            ticket_created(held, body, index),
        ),
{
    let name = encode_utf8(SEQ_TICKET@);
    let id = next_counter_value(held, name);
    let now = ticket_created(held, body, index);
    let t = new_ticket(body, index);
    row_trees_apart();
    assert forall|at: (Seq<char>, Seq<u8>)| !is_ticket_index(at.0) && at != ticket_at(id) && at
        != counter_at(name) implies (#[trigger] now.contains_key(at) == held.contains_key(at)) && (
    held.contains_key(at) ==> now[at] == held[at]) by {
        if is_entry(ticket_index_values(index), be8(id), at) {
            ticket_entries_in_indexes(index, be8(id), at);
        }
    }
    assert forall|other: u64| other != id implies #[trigger] lookup_ticket(now, other)
        == lookup_ticket(held, other) by {
        if be8(id) == be8(other) {
            be8_injective(id, other);
        }
        assert(now.contains_key(ticket_at(other)) == held.contains_key(ticket_at(other)));
    }
    assert forall|key: Seq<u8>| #[trigger] now.contains_key((TREE_TICKETS@, key)) implies key.len()
        == 8 && ticket_in(now[(TREE_TICKETS@, key)]) is Some by {
        if key == be8(id) {
            assert(lookup_ticket(now, id) is Found);
        } else {
            assert(held.contains_key((TREE_TICKETS@, key)));
        }
    }
    assert forall|other: u64, at: (Seq<char>, Seq<u8>)| #[trigger]
        is_live_entry(now, other, at) implies now.contains_pair(at, be8(other)) by {
        let u = lookup_ticket(now, other)->Found_0;
        ticket_entries_in_indexes(u.index, be8(other), at);
        if other != id {
            assert(lookup_ticket(now, other) == lookup_ticket(held, other));
            assert(is_live_entry(held, other, at));
            if is_entry(ticket_index_values(index), be8(id), at) {
                entries_apart(index, id, u.index, other, at);
            }
        }
    }
    assert forall|at: (Seq<char>, Seq<u8>)|
        is_ticket_index(at.0) && #[trigger] now.contains_key(at) implies exists|other: u64|
            is_live_entry(now, other, at) by {
        if is_entry(ticket_index_values(index), be8(id), at) {
            assert(is_live_entry(now, id, at));
        } else {
            assert(held.contains_key(at));
            let other = choose|other: u64| is_live_entry(held, other, at);
            assert(other != id);
            assert(lookup_ticket(now, other) == lookup_ticket(held, other));
            assert(is_live_entry(now, other, at));
        }
    }
    if id < u64::MAX {
        let at = counter_at(name);
        be8_round_trip(id);
        if is_entry(ticket_index_values(index), be8(id), at) {
            ticket_entries_in_indexes(index, be8(id), at);
        }
        assert(now.contains_key(at) && now[at] == be8(id));
        assert(next_counter_value(now, name) == id + 1);
        assert forall|other: u64| #[trigger] now.contains_key(ticket_at(other)) implies other
            < next_counter_value(now, name) by {
            if other != id {
                if be8(id) == be8(other) {
                    be8_injective(id, other);
                }
                assert(held.contains_key(ticket_at(other)));
            }
        }
    }
}

/// A deleted ticket is in no index.
pub proof fn deleted_ticket_is_in_no_index(held: Held, id: u64, at: (Seq<char>, Seq<u8>))
    requires
        tickets_consistent(held),
        lookup_ticket(held, id) matches Lookup::Found(t) && t.deleted,
        is_ticket_index(at.0),
    ensures
        !held.contains_pair(at, be8(id)),
{
    if held.contains_pair(at, be8(id)) {
        let other = choose|other: u64| is_live_entry(held, other, at);
        assert(held.contains_pair(at, be8(other)));
        be8_injective(id, other);
    }
}

/// The two storages hold the same tickets and the same ticket indexes.
pub open spec fn same_tickets(held: Held, now: Held) -> bool {
    forall|at: (Seq<char>, Seq<u8>)|
        (at.0 == TREE_TICKETS@ || is_ticket_index(at.0)) ==> (#[trigger] now.contains_key(at)
            == held.contains_key(at)) && (held.contains_key(at) ==> now[at] == held[at])
}

/// A change to nothing but other collections keeps rows and indexes in agreement.
pub proof fn other_changes_keep_consistency(held: Held, now: Held)
    requires
        tickets_consistent(held),
        same_tickets(held, now),
    ensures
        tickets_consistent(now),
{
    assert forall|id: u64| #[trigger] lookup_ticket(now, id) == lookup_ticket(held, id) by {
        assert(now.contains_key(ticket_at(id)) == held.contains_key(ticket_at(id)));
    }
    assert forall|key: Seq<u8>| #[trigger] now.contains_key((TREE_TICKETS@, key)) implies key.len()
        == 8 && ticket_in(now[(TREE_TICKETS@, key)]) is Some by {
        assert(held.contains_key((TREE_TICKETS@, key)));
    }
    assert forall|id: u64, at: (Seq<char>, Seq<u8>)| #[trigger]
        is_live_entry(now, id, at) implies now.contains_pair(at, be8(id)) by {
        assert(lookup_ticket(now, id) == lookup_ticket(held, id));
        assert(is_live_entry(held, id, at));
        ticket_entries_in_indexes(lookup_ticket(held, id)->Found_0.index, be8(id), at);
        assert(now.contains_key(at) == held.contains_key(at));
    }
    assert forall|at: (Seq<char>, Seq<u8>)|
        is_ticket_index(at.0) && #[trigger] now.contains_key(at) implies exists|id: u64|
            is_live_entry(now, id, at) by {
        assert(held.contains_key(at));
        let id = choose|id: u64| is_live_entry(held, id, at);
        assert(lookup_ticket(now, id) == lookup_ticket(held, id));
        assert(is_live_entry(now, id, at));
    }
}

/// An empty storage is consistent.
pub proof fn empty_is_consistent(held: Held)
    requires
        crate::store::holds_nothing(held),
    ensures
        tickets_consistent(held),
        ids_below_counter(held),
{
}

// ---- Queries ----

/// Candidates that are good to go over: every one exists, nothing that is asked for is left out,
/// and those asked for come in the order of their ids.
spec fn are_good(held: Held, query: TicketQuery, ids: Seq<u64>) -> bool {
    &&& forall|j: int| 0 <= j < ids.len() ==> lookup_ticket(held, #[trigger] ids[j]) is Found
    &&& forall|id: u64| #[trigger] is_wanted(held, query, id) ==> ids.contains(id)
    &&& forall|a: int, b: int|
        0 <= a < b < ids.len() && is_wanted(held, query, #[trigger] ids[a]) && is_wanted(
            held,
            query,
            #[trigger] ids[b],
        ) ==> ids[a] < ids[b]
}

/// What going over the first `n` of good candidates gives.
proof fn answer_over_good(held: Held, query: TicketQuery, ids: Seq<u64>, n: nat)
    requires
        are_good(held, query, ids),
        n <= ids.len(),
    ensures
        answer(held, query, ids, n) matches Some(found) && {
            &&& forall|i: int, j: int|
                0 <= i < j < found.len() ==> (#[trigger] found[i]).0 < (#[trigger] found[j]).0
            &&& forall|i: int|
                0 <= i < found.len() ==> is_wanted(held, query, (#[trigger] found[i]).0)
                    && lookup_ticket(held, found[i].0) == Lookup::Found(found[i].1)
            &&& forall|i: int|
                0 <= i < found.len() ==> exists|j: int| 0 <= j < n && #[trigger] ids[j] == (#[trigger] found[i]).0
            &&& query.limit > 0 ==> found.len() <= query.limit
            &&& forall|j: int|
                0 <= j < n && is_wanted(held, query, #[trigger] ids[j]) ==> has_id(found, ids[j]) || (
                is_full(query, found.len()) && forall|i: int|
                    0 <= i < found.len() ==> (#[trigger] found[i]).0 < ids[j])
        },
    decreases n,
{
    if n > 0 {
        answer_over_good(held, query, ids, (n - 1) as nat);
        let before = answer(held, query, ids, (n - 1) as nat)->0;
        let found = answer(held, query, ids, n)->0;
        let id = ids[n - 1];
        assert(lookup_ticket(held, id) is Found);
        if is_full(query, before.len()) {
            assert(found == before);
            if is_wanted(held, query, id) {
                assert forall|i: int| 0 <= i < found.len() implies (#[trigger] found[i]).0 < id by {
                    let j = choose|j: int| 0 <= j < n - 1 && #[trigger] ids[j] == found[i].0;
                    assert(ids[j] < ids[n - 1]);
                }
            }
            assert forall|i: int| 0 <= i < found.len() implies exists|j: int|
                0 <= j < n && #[trigger] ids[j] == (#[trigger] found[i]).0 by {
                let j = choose|j: int| 0 <= j < n - 1 && #[trigger] ids[j] == before[i].0;
                assert(ids[j] == found[i].0);
            }
        } else if is_wanted(held, query, id) {
            let t = lookup_ticket(held, id)->Found_0;
            assert(found == before.push((id, t)));
            assert forall|i: int, j: int| 0 <= i < j < found.len() implies (#[trigger] found[i]).0 < (
            #[trigger] found[j]).0 by {
                if j == before.len() {
                    assert(before[i] == found[i]);
                    let k = choose|k: int| 0 <= k < n - 1 && #[trigger] ids[k] == before[i].0;
                    assert(is_wanted(held, query, before[i].0));
                    assert(ids[k] < ids[n - 1]);
                } else {
                    assert(before[i] == found[i] && before[j] == found[j]);
                }
            }
            assert forall|i: int| 0 <= i < found.len() implies exists|j: int|
                0 <= j < n && #[trigger] ids[j] == (#[trigger] found[i]).0 by {
                if i < before.len() {
                    assert(before[i] == found[i]);
                    let j = choose|j: int| 0 <= j < n - 1 && #[trigger] ids[j] == before[i].0;
                    assert(ids[j] == found[i].0);
                } else {
                    assert(ids[n - 1] == found[i].0);
                }
            }
            assert forall|i: int| 0 <= i < found.len() implies is_wanted(held, query, (#[trigger] found[i]).0)
                && lookup_ticket(held, found[i].0) == Lookup::Found(found[i].1) by {
                if i < before.len() {
                    assert(before[i] == found[i]);
                }
            }
            assert forall|j: int| 0 <= j < n && is_wanted(held, query, #[trigger] ids[j]) implies has_id(
                found,
                ids[j],
            ) by {
                if j == n - 1 {
                    assert(found[before.len() as int].0 == id);
                } else {
                    assert(has_id(before, ids[j]));
                    let i = choose|i: int| 0 <= i < before.len() && (#[trigger] before[i]).0 == ids[j];
                    assert(found[i].0 == ids[j]);
                }
            }
        } else {
            assert(found == before);
            assert forall|i: int| 0 <= i < found.len() implies exists|j: int|
                0 <= j < n && #[trigger] ids[j] == (#[trigger] found[i]).0 by {
                let j = choose|j: int| 0 <= j < n - 1 && #[trigger] ids[j] == before[i].0;
                assert(ids[j] == found[i].0);
            }
        }
    }
}

/// All values of a listing that are eight bytes long are kept as ids.
proof fn value_ids_of_entries(list: Seq<(Seq<u8>, Seq<u8>)>)
    requires
        forall|i: int| 0 <= i < list.len() ==> (#[trigger] list[i]).1.len() == 8,
    ensures
        value_ids(list).len() == list.len(),
        forall|i: int| 0 <= i < list.len() ==> #[trigger] value_ids(list)[i] == from_be8(list[i].1),
    decreases list.len(),
{
    if list.len() > 0 {
        let rest = list.drop_last();
        assert forall|i: int| 0 <= i < rest.len() implies (#[trigger] rest[i]).1.len() == 8 by {
            assert(rest[i] == list[i]);
        }
        value_ids_of_entries(rest);
        assert(list.last() == list[list.len() - 1]);
        assert forall|i: int| 0 <= i < list.len() implies #[trigger] value_ids(list)[i] == from_be8(
            list[i].1,
        ) by {
            if i < rest.len() {
                assert(value_ids(rest)[i] == from_be8(rest[i].1));
            }
        }
    }
}

/// All keys of a listing that are eight bytes long are kept as ids.
proof fn key_ids_of_rows(list: Seq<(Seq<u8>, Seq<u8>)>)
    requires
        forall|i: int| 0 <= i < list.len() ==> (#[trigger] list[i]).0.len() == 8,
    ensures
        key_ids(list).len() == list.len(),
        forall|i: int| 0 <= i < list.len() ==> #[trigger] key_ids(list)[i] == from_be8(list[i].0),
    decreases list.len(),
{
    if list.len() > 0 {
        let rest = list.drop_last();
        assert forall|i: int| 0 <= i < rest.len() implies (#[trigger] rest[i]).0.len() == 8 by {
            assert(rest[i] == list[i]);
        }
        key_ids_of_rows(rest);
        assert(list.last() == list[list.len() - 1]);
        assert forall|i: int| 0 <= i < list.len() implies #[trigger] key_ids(list)[i] == from_be8(
            list[i].0,
        ) by {
            if i < rest.len() {
                assert(key_ids(rest)[i] == from_be8(rest[i].0));
            }
        }
    }
}

/// A ticket that matches a query stands in the query's index under the query's value, and nowhere
/// else in that index.
proof fn entry_in_query_index(query: TicketQuery, t: TicketView, entity: Seq<u8>)
    requires
        query_index(query) is Some,
        query_matches(query, t),
    ensures
        ({
            let (tree, value) = query_index(query)->0;
            let values = ticket_index_values(t.index);
            &&& is_ticket_index(tree)
            &&& is_entry(values, entity, (tree, index_key_of(value, entity)))
            &&& forall|key: Seq<u8>| #[trigger]
                is_entry(values, entity, (tree, key)) ==> key == index_key_of(value, entity)
        }),
{
    index_names_apart();
    let (tree, value) = query_index(query)->0;
    let values = ticket_index_values(t.index);
    if query.status is Some {
        assert(values[0] == (tree, value));
    } else if query.assigned_to_uuid is Some {
        assert(values[5] == (tree, value));
    } else if query.account_uuid is Some {
        assert(values[1] == (tree, value));
    } else {
        assert(values[2] == (tree, value));
    }
    assert forall|key: Seq<u8>| #[trigger] is_entry(values, entity, (tree, key)) implies key
        == index_key_of(value, entity) by {
        let i = choose|i: int|
            0 <= i < values.len() && (tree, key) == ((#[trigger] values[i]).0, index_key_of(
                values[i].1,
                entity,
            ));
        assert(values[i].0 == tree);
        assert(values[i].1 == value);
    }
}

/// In a consistent storage the candidates of a query are good to go over.
proof fn candidates_are_good(held: Held, query: TicketQuery, ids: Seq<u64>)
    requires
        tickets_consistent(held),
        are_candidates(held, query, ids),
    ensures
        are_good(held, query, ids),
{
    match query_index(query) {
        Some((tree, value)) => {
            let rule = starting_with(index_prefix_of(value));
            let list = choose|list: Seq<(Seq<u8>, Seq<u8>)>|
                is_listing(held, tree, rule, list) && ids == #[trigger] value_ids(list);
            index_names_apart();
            assert(is_ticket_index(tree));
            assert forall|i: int| 0 <= i < list.len() implies (#[trigger] list[i]).1.len() == 8
                && is_live_entry(held, from_be8(list[i].1), (tree, list[i].0)) by {
                let at = (tree, list[i].0);
                assert(rule(list[i].0) && held.contains_pair(at, list[i].1));
                let id = choose|id: u64| is_live_entry(held, id, at);
                assert(held.contains_pair(at, be8(id)));
                be8_round_trip(id);
            }
            value_ids_of_entries(list);
            assert forall|j: int| 0 <= j < ids.len() implies lookup_ticket(held, #[trigger] ids[j]) is Found by {
                assert(is_live_entry(held, from_be8(list[j].1), (tree, list[j].0)));
            }
            assert forall|id: u64| #[trigger] is_wanted(held, query, id) implies ids.contains(id) by {
                let t = lookup_ticket(held, id)->Found_0;
                entry_in_query_index(query, t, be8(id));
                let key = index_key_of(value, be8(id));
                assert(is_live_entry(held, id, (tree, key)));
                assert(held.contains_pair((tree, key), be8(id)));
                assert(index_prefix_of(value) =~= key.take(index_prefix_of(value).len() as int));
                assert(rule(key));
                assert(held.dom().contains((tree, key)));
                let i = choose|i: int| 0 <= i < list.len() && (#[trigger] list[i]).0 == key;
                assert(held.contains_pair((tree, list[i].0), list[i].1)) by {
                    assert(rule(list[i].0));
                }
                be8_round_trip(id);
                assert(ids[i] == id);
            }
            assert forall|a: int, b: int|
                0 <= a < b < ids.len() && is_wanted(held, query, #[trigger] ids[a]) && is_wanted(
                    held,
                    query,
                    #[trigger] ids[b],
                ) implies ids[a] < ids[b] by {
                assert(list[a].1.len() == 8 && list[b].1.len() == 8);
                let ta = lookup_ticket(held, ids[a])->Found_0;
                let tb = lookup_ticket(held, ids[b])->Found_0;
                entry_in_query_index(query, ta, be8(ids[a]));
                entry_in_query_index(query, tb, be8(ids[b]));
                assert(is_live_entry(held, ids[a], (tree, list[a].0)));
                assert(is_live_entry(held, ids[b], (tree, list[b].0)));
                assert(list[a].0 == index_prefix_of(value) + be8(ids[a]));
                assert(list[b].0 == index_prefix_of(value) + be8(ids[b]));
                assert(lex_lt(list[a].0, list[b].0));
                lex_lt_common_prefix(index_prefix_of(value), be8(ids[a]), be8(ids[b]));
                be8_order(ids[a], ids[b]);
            }
        },
        None => {
            let list = choose|list: Seq<(Seq<u8>, Seq<u8>)>|
                is_listing(held, TREE_TICKETS@, any_key(), list) && ids == #[trigger] key_ids(list);
            assert forall|i: int| 0 <= i < list.len() implies (#[trigger] list[i]).0.len() == 8 by {
                assert(any_key()(list[i].0));
                assert(held.contains_key((TREE_TICKETS@, list[i].0)));
            }
            key_ids_of_rows(list);
            assert forall|j: int| 0 <= j < ids.len() implies lookup_ticket(held, #[trigger] ids[j]) is Found by {
                assert(any_key()(list[j].0));
                assert(list[j].0.len() == 8);
                from_be8_round_trip(list[j].0);
                assert(held.contains_key((TREE_TICKETS@, list[j].0)));
            }
            assert forall|id: u64| #[trigger] is_wanted(held, query, id) implies ids.contains(id) by {
                assert(held.contains_key(ticket_at(id)));
                assert(any_key()(be8(id)));
                assert(held.dom().contains((TREE_TICKETS@, be8(id))));
                let i = choose|i: int| 0 <= i < list.len() && (#[trigger] list[i]).0 == be8(id);
                be8_round_trip(id);
                assert(ids[i] == id);
            }
            assert forall|a: int, b: int|
                0 <= a < b < ids.len() && is_wanted(held, query, #[trigger] ids[a]) && is_wanted(
                    held,
                    query,
                    #[trigger] ids[b],
                ) implies ids[a] < ids[b] by {
                assert(lex_lt(list[a].0, list[b].0));
                assert(list[a].0.len() == 8 && list[b].0.len() == 8);
                from_be8_round_trip(list[a].0);
                from_be8_round_trip(list[b].0);
                be8_order(ids[a], ids[b]);
            }
        },
    }
}

/// In a consistent storage a query finds, in the order of their ids, every ticket that it asks
/// for, or as many as its limit allows, whichever index it goes by.
pub proof fn query_finds_what_it_asks_for(held: Held, query: TicketQuery, ids: Seq<u64>)
    requires
        tickets_consistent(held),
        are_candidates(held, query, ids),
    ensures
        answer(held, query, ids, ids.len()) matches Some(found) && is_answer(held, query, found),
{
    candidates_are_good(held, query, ids);
    answer_over_good(held, query, ids, ids.len());
    let found = answer(held, query, ids, ids.len())->0;
    assert forall|id: u64| #[trigger] is_wanted(held, query, id) implies has_id(found, id) || (is_full(
        query,
        found.len(),
    ) && forall|i: int| 0 <= i < found.len() ==> (#[trigger] found[i]).0 < id) by {
        assert(ids.contains(id));
        let j = choose|j: int| 0 <= j < ids.len() && ids[j] == id;
        assert(is_wanted(held, query, ids[j]));
    }
}

/// A key that begins with a value and a zero byte is an entry for that value.
pub proof fn prefix_tells_the_value(value: Seq<u8>, w: Seq<u8>, entity: Seq<u8>)
    requires
        index_prefix_of(value).is_prefix_of(index_key_of(w, entity)),
        value.len() == w.len() || (!value.contains(0u8) && !w.contains(0u8)),
    ensures
        value == w,
{
    let key = index_key_of(w, entity);
    let prefix = index_prefix_of(value);
    assert(prefix =~= key.take(prefix.len() as int));
    assert forall|i: int| 0 <= i < prefix.len() implies prefix[i] == key[i] by {
        assert(key.take(prefix.len() as int)[i] == key[i]);
    }
    assert(prefix[value.len() as int] == 0u8);
    assert(key[w.len() as int] == 0u8);
    if value.len() < w.len() {
        assert(w[value.len() as int] == 0u8);
    }
    if w.len() < value.len() {
        assert(value[w.len() as int] == prefix[w.len() as int]);
    }
    assert forall|i: int| 0 <= i < value.len() implies value[i] == w[i] by {
        assert(prefix[i] == key[i]);
    }
    assert(value =~= w);
}

/// The ticket is live and stands in the index under the value.
pub open spec fn is_live_under(held: Held, id: u64, tree: Seq<char>, value: Seq<u8>) -> bool {
    lookup_ticket(held, id) matches Lookup::Found(t) && !t.deleted && ticket_index_values(
        t.index,
    ).contains((tree, value))
}

/// The value cannot be mistaken for the beginning of another: it is a status or a time, or neither
/// it nor any live ticket's value in the index holds a zero byte.
pub open spec fn is_unmistakable_in(held: Held, tree: Seq<char>, value: Seq<u8>) -> bool {
    ||| tree == IDX_TICKET_STATUS@ && value.len() == 1
    ||| (tree == IDX_TICKET_CREATED@ || tree == IDX_TICKET_UPDATED@) && value.len() == 8
    ||| !value.contains(0u8) && forall|id: u64, w: Seq<u8>| #[trigger]
        is_live_under(held, id, tree, w) ==> !w.contains(0u8)
}

/// `ids` are the live tickets that stand in the index under the value, in strictly ascending order.
pub open spec fn are_tickets_under(
    held: Held,
    tree: Seq<char>,
    value: Seq<u8>,
    ids: Seq<u64>,
) -> bool {
    &&& forall|i: int, j: int| 0 <= i < j < ids.len() ==> #[trigger] ids[i] < #[trigger] ids[j]
    &&& forall|id: u64| #[trigger] ids.contains(id) <==> is_live_under(held, id, tree, value)
}

/// An entry that is listed by a value is that of a live ticket with the value.
proof fn listed_ticket(
    held: Held,
    tree: Seq<char>,
    value: Seq<u8>,
    list: Seq<(Seq<u8>, Seq<u8>)>,
    i: int,
) -> (id: u64)
    requires
        tickets_consistent(held),
        is_ticket_index(tree),
        is_unmistakable_in(held, tree, value),
        is_listing(held, tree, starting_with(index_prefix_of(value)), list),
        0 <= i < list.len(),
    ensures
        is_live_under(held, id, tree, value),
        list[i].1 == be8(id),
        list[i].0 == index_key_of(value, be8(id)),
{
    let at = (tree, list[i].0);
    assert(starting_with(index_prefix_of(value))(list[i].0));
    assert(held.contains_pair(at, list[i].1));
    assert(held.contains_key(at));
    let id = choose|id: u64| is_live_entry(held, id, at);
    let t = lookup_ticket(held, id)->Found_0;
    let values = ticket_index_values(t.index);
    let j = choose|j: int|
        0 <= j < values.len() && at == ((#[trigger] values[j]).0, index_key_of(
            values[j].1,
            be8(id),
        ));
    let w = values[j].1;
    assert(values.contains((tree, w)));
    assert(held.contains_pair(at, be8(id)));
    assert(is_live_under(held, id, tree, w));
    index_names_apart();
    prefix_tells_the_value(value, w, be8(id));
    id
}

/// A listing of an index by a value gives the live tickets with that value, and no others, in the
/// order of their ids.
pub proof fn listing_gives_the_tickets(
    held: Held,
    tree: Seq<char>,
    value: Seq<u8>,
    list: Seq<(Seq<u8>, Seq<u8>)>,
)
    requires
        tickets_consistent(held),
        is_ticket_index(tree),
        is_unmistakable_in(held, tree, value),
        is_listing(held, tree, starting_with(index_prefix_of(value)), list),
    ensures
        are_tickets_under(held, tree, value, value_ids(list)),
{
    let ids = value_ids(list);
    assert forall|i: int| 0 <= i < list.len() implies (#[trigger] list[i]).1.len() == 8
        && is_live_under(held, from_be8(list[i].1), tree, value) && list[i].0 == index_key_of(
        value,
        be8(from_be8(list[i].1)),
    ) by {
        let id = listed_ticket(held, tree, value, list, i);
        be8_round_trip(id);
    }
    value_ids_of_entries(list);
    assert forall|i: int, j: int| 0 <= i < j < ids.len() implies #[trigger] ids[i]
        < #[trigger] ids[j] by {
        assert(list[i].0 == index_prefix_of(value) + be8(ids[i]));
        assert(list[j].0 == index_prefix_of(value) + be8(ids[j]));
        assert(lex_lt(list[i].0, list[j].0));
        lex_lt_common_prefix(index_prefix_of(value), be8(ids[i]), be8(ids[j]));
        be8_order(ids[i], ids[j]);
    }
    assert forall|id: u64| #[trigger] ids.contains(id) <==> is_live_under(
        held,
        id,
        tree,
        value,
    ) by {
        if is_live_under(held, id, tree, value) {
            let t = lookup_ticket(held, id)->Found_0;
            let values = ticket_index_values(t.index);
            let j = choose|j: int| 0 <= j < values.len() && values[j] == (tree, value);
            let key = index_key_of(value, be8(id));
            assert(is_entry(values, be8(id), (tree, key)));
            assert(is_live_entry(held, id, (tree, key)));
            assert(held.contains_pair((tree, key), be8(id)));
            assert(index_prefix_of(value) =~= key.take(index_prefix_of(value).len() as int));
            assert(starting_with(index_prefix_of(value))(key));
            assert(held.dom().contains((tree, key)));
            let i = choose|i: int| 0 <= i < list.len() && (#[trigger] list[i]).0 == key;
            assert(held.contains_pair((tree, list[i].0), list[i].1)) by {
                assert(starting_with(index_prefix_of(value))(list[i].0));
            }
            be8_round_trip(id);
            assert(ids[i] == id);
        }
        if ids.contains(id) {
            let i = choose|i: int| 0 <= i < ids.len() && ids[i] == id;
            assert(is_live_under(held, from_be8(list[i].1), tree, value));
        }
    }
}

} // verus!
