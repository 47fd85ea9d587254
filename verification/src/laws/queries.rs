//! Queries: every filter counts for itself, whatever else the query sets.

use vstd::prelude::*;
use vstd::utf8::encode_utf8;

use crate::db::consistency::{
    has_id, ids_below_counter, is_live_under, is_unmistakable_in, is_wanted, tickets_consistent,
};
use crate::db::rows::{StoredTicket, TicketIndexFields};
use crate::db::server::{query_tickets, TicketRecord, WireTicketQuery};
use crate::db::storage::{lookup_ticket, tickets_of, Lookup, Storage, StorageError, TicketQuery};
use crate::db::tickets::{matches_query, queried_ticket};
use crate::status::Status;

verus! {

/// A ticket matches a query exactly where it has the status, the assignee, the account and the
/// project that the query sets, each for itself.
pub proof fn a_match_meets_each_filter(query: TicketQuery, t: StoredTicket, out: bool)
    requires
        call_ensures(matches_query, (&query, &t), out),
    ensures
        out <==> {
            &&& query.status matches Some(status) ==> t.index.status == status
            &&& query.assigned_to_uuid matches Some(user) ==> (t.index.assigned_to_uuid matches Some(
                assignee,
            ) && assignee@ == user@)
            &&& query.account_uuid matches Some(account) ==> t.index.account_uuid@ == account@
            &&& query.project matches Some(project) ==> t.index.project@ == project@
        },
{
}

/// Every ticket in the answer to a query has what the query sets, field by field, is live unless
/// deleted ones are asked for, and is what a request for it alone gives.
pub proof fn every_answer_meets_every_filter(
    storage: Storage,
    query: TicketQuery,
    found: Vec<(u64, StoredTicket)>,
    i: int,
    alone: Option<StoredTicket>,
)
    requires
        tickets_consistent(storage@),
        call_ensures(
            Storage::query_tickets,
            (&storage, &query),
            Ok::<Vec<(u64, StoredTicket)>, StorageError>(found),
        ),
        0 <= i < found@.len(),
        call_ensures(
            Storage::get_ticket,
            (&storage, found@[i].0, query.include_deleted),
            Ok::<Option<StoredTicket>, StorageError>(alone),
        ),
    ensures
        ({
            let t = found@[i].1;
            &&& query.status matches Some(status) ==> t.index.status == status
            &&& query.assigned_to_uuid matches Some(user) ==> (t.index.assigned_to_uuid matches Some(
                assignee,
            ) && assignee@ == user@)
            &&& query.account_uuid matches Some(account) ==> t.index.account_uuid@ == account@
            &&& query.project matches Some(project) ==> t.index.project@ == project@
            &&& t.deleted ==> query.include_deleted
            &&& alone matches Some(a) && a@ == t@
        }),
{
    assert(tickets_of(found@)[i] == (found@[i].0, found@[i].1@));
    assert(is_wanted(storage@, query, tickets_of(found@)[i].0));
}

/// Every ticket that has what a query sets is in the answer, unless the limit is reached before it.
pub proof fn every_match_is_answered(
    storage: Storage,
    query: TicketQuery,
    found: Vec<(u64, StoredTicket)>,
    id: u64,
    t: StoredTicket,
)
    requires
        tickets_consistent(storage@),
        call_ensures(
            Storage::query_tickets,
            (&storage, &query),
            Ok::<Vec<(u64, StoredTicket)>, StorageError>(found),
        ),
        call_ensures(
            Storage::get_ticket,
            (&storage, id, query.include_deleted),
            Ok::<Option<StoredTicket>, StorageError>(Some(t)),
        ),
        query.status matches Some(status) ==> t.index.status == status,
        query.assigned_to_uuid matches Some(user) ==> (t.index.assigned_to_uuid matches Some(
            assignee,
        ) && assignee@ == user@),
        query.account_uuid matches Some(account) ==> t.index.account_uuid@ == account@,
        query.project matches Some(project) ==> t.index.project@ == project@,
    ensures
        (exists|i: int| 0 <= i < found@.len() && (#[trigger] found@[i]).0 == id) || (query.limit > 0
            && found@.len() == query.limit && forall|i: int|
            0 <= i < found@.len() ==> (#[trigger] found@[i]).0 < id),
{
    let all = tickets_of(found@);
    assert(is_wanted(storage@, query, id));
    if has_id(all, id) {
        let i = choose|i: int| 0 <= i < all.len() && (#[trigger] all[i]).0 == id;
        assert(found@[i].0 == id);
    } else {
        assert forall|i: int| 0 <= i < found@.len() implies (#[trigger] found@[i]).0 < id by {
            assert(all[i].0 < id);
        }
    }
}

/// Answers come in the order of their ids, and no more of them than the limit allows.
pub proof fn answers_are_in_order(
    storage: Storage,
    query: TicketQuery,
    found: Vec<(u64, StoredTicket)>,
)
    requires
        tickets_consistent(storage@),
        call_ensures(
            Storage::query_tickets,
            (&storage, &query),
            Ok::<Vec<(u64, StoredTicket)>, StorageError>(found),
        ),
    ensures
        forall|i: int, j: int|
            0 <= i < j < found@.len() ==> (#[trigger] found@[i]).0 < (#[trigger] found@[j]).0,
        query.limit > 0 ==> found@.len() <= query.limit,
{
    let all = tickets_of(found@);
    assert forall|i: int, j: int| 0 <= i < j < found@.len() implies (#[trigger] found@[i]).0 < (
    #[trigger] found@[j]).0 by {
        assert(all[i].0 < all[j].0);
    }
}

/// The ticket is among those found.
pub open spec fn is_found(found: Vec<(u64, StoredTicket)>, id: u64) -> bool {
    exists|i: int| 0 <= i < found@.len() && (#[trigger] found@[i]).0 == id
}

proof fn found_is_wanted(
    storage: Storage,
    query: TicketQuery,
    found: Vec<(u64, StoredTicket)>,
    id: u64,
)
    requires
        tickets_consistent(storage@),
        query.limit == 0,
        call_ensures(
            Storage::query_tickets,
            (&storage, &query),
            Ok::<Vec<(u64, StoredTicket)>, StorageError>(found),
        ),
    ensures
        is_found(found, id) <==> is_wanted(storage@, query, id),
{
    let all = tickets_of(found@);
    if is_found(found, id) {
        let i = choose|i: int| 0 <= i < found@.len() && (#[trigger] found@[i]).0 == id;
        assert(all[i].0 == id);
    }
    if is_wanted(storage@, query, id) {
        let i = choose|i: int| 0 <= i < all.len() && (#[trigger] all[i]).0 == id;
        assert(found@[i].0 == id);
    }
}

/// A query that sets what two queries set is answered with what both are answered with.
pub proof fn two_filters_intersect(
    storage: Storage,
    a: TicketQuery,
    b: TicketQuery,
    both: TicketQuery,
    found_a: Vec<(u64, StoredTicket)>,
    found_b: Vec<(u64, StoredTicket)>,
    found: Vec<(u64, StoredTicket)>,
    id: u64,
)
    requires
        tickets_consistent(storage@),
        a.limit == 0 && b.limit == 0 && both.limit == 0,
        a.include_deleted == both.include_deleted && b.include_deleted == both.include_deleted,
        a.status is None || both.status == a.status,
        b.status is None || both.status == b.status,
        both.status is Some ==> a.status is Some || b.status is Some,
        a.assigned_to_uuid is None || both.assigned_to_uuid == a.assigned_to_uuid,
        b.assigned_to_uuid is None || both.assigned_to_uuid == b.assigned_to_uuid,
        both.assigned_to_uuid is Some ==> a.assigned_to_uuid is Some || b.assigned_to_uuid is Some,
        a.account_uuid is None || both.account_uuid == a.account_uuid,
        b.account_uuid is None || both.account_uuid == b.account_uuid,
        both.account_uuid is Some ==> a.account_uuid is Some || b.account_uuid is Some,
        a.project is None || both.project == a.project,
        b.project is None || both.project == b.project,
        both.project is Some ==> a.project is Some || b.project is Some,
        call_ensures(
            Storage::query_tickets,
            (&storage, &a),
            Ok::<Vec<(u64, StoredTicket)>, StorageError>(found_a),
        ),
        call_ensures(
            Storage::query_tickets,
            (&storage, &b),
            Ok::<Vec<(u64, StoredTicket)>, StorageError>(found_b),
        ),
        call_ensures(
            Storage::query_tickets,
            (&storage, &both),
            Ok::<Vec<(u64, StoredTicket)>, StorageError>(found),
        ),
    ensures
        is_found(found, id) <==> is_found(found_a, id) && is_found(found_b, id),
{
    found_is_wanted(storage, a, found_a, id);
    found_is_wanted(storage, b, found_b, id);
    found_is_wanted(storage, both, found, id);
}

/// A limit cuts the answer off and changes nothing before the cut.
pub proof fn a_limit_cuts_the_answer_off(
    storage: Storage,
    query: TicketQuery,
    limited: TicketQuery,
    found: Vec<(u64, StoredTicket)>,
    few: Vec<(u64, StoredTicket)>,
    i: int,
)
    requires
        tickets_consistent(storage@),
        query.limit == 0,
        limited == (TicketQuery { limit: limited.limit, ..query }),
        limited.limit > 0,
        call_ensures(
            Storage::query_tickets,
            (&storage, &query),
            Ok::<Vec<(u64, StoredTicket)>, StorageError>(found),
        ),
        call_ensures(
            Storage::query_tickets,
            (&storage, &limited),
            Ok::<Vec<(u64, StoredTicket)>, StorageError>(few),
        ),
    ensures
        few@.len() == (if found@.len() < limited.limit {
            found@.len()
        } else {
            limited.limit as nat
        }),
        0 <= i < few@.len() ==> few@[i].0 == found@[i].0 && few@[i].1@ == found@[i].1@,
{
    answers_are_in_order(storage, query, found);
    answers_are_in_order(storage, limited, few);
    few_are_first(storage, query, limited, found, few, few@.len());
    let all = tickets_of(found@);
    let some = tickets_of(few@);
    if few@.len() < found@.len() && few@.len() < limited.limit {
        let n = few@.len() as int;
        assert(is_wanted(storage@, query, all[n].0));
        assert(is_wanted(storage@, limited, all[n].0));
        assert(has_id(some, all[n].0));
        let k = choose|k: int| 0 <= k < some.len() && (#[trigger] some[k]).0 == all[n].0;
        assert(few@[k].0 == found@[k].0);
        assert(found@[k].0 < found@[n].0);
    }
}

/// The first of a limited answer are the first of the whole one.
proof fn few_are_first(
    storage: Storage,
    query: TicketQuery,
    limited: TicketQuery,
    found: Vec<(u64, StoredTicket)>,
    few: Vec<(u64, StoredTicket)>,
    n: nat,
)
    requires
        tickets_consistent(storage@),
        query.limit == 0,
        limited == (TicketQuery { limit: limited.limit, ..query }),
        limited.limit > 0,
        call_ensures(
            Storage::query_tickets,
            (&storage, &query),
            Ok::<Vec<(u64, StoredTicket)>, StorageError>(found),
        ),
        call_ensures(
            Storage::query_tickets,
            (&storage, &limited),
            Ok::<Vec<(u64, StoredTicket)>, StorageError>(few),
        ),
        n <= few@.len(),
    ensures
        n <= found@.len(),
        forall|i: int|
            0 <= i < n ==> (#[trigger] few@[i]).0 == found@[i].0 && few@[i].1@ == found@[i].1@,
    decreases n,
{
    let all = tickets_of(found@);
    let some = tickets_of(few@);
    if n > 0 {
        let last = n - 1;
        few_are_first(storage, query, limited, found, few, last as nat);
        answers_are_in_order(storage, query, found);
        answers_are_in_order(storage, limited, few);
        let id = few@[last].0;
        assert(some[last].0 == id);
        assert(is_wanted(storage@, limited, id));
        assert(is_wanted(storage@, query, id));
        assert(has_id(all, id));
        let k = choose|k: int| 0 <= k < all.len() && (#[trigger] all[k]).0 == id;
        assert(found@[k].0 == id);
        if k < last {
            assert(few@[k].0 == found@[k].0);
            assert(few@[k].0 < few@[last].0);
        }
        if k > last {
            let missed = found@[last].0;
            assert(all[last].0 == missed);
            assert(missed < id);
            assert(is_wanted(storage@, query, missed));
            assert(is_wanted(storage@, limited, missed));
            if has_id(some, missed) {
                let j = choose|j: int| 0 <= j < some.len() && (#[trigger] some[j]).0 == missed;
                assert(few@[j].0 == missed);
                if j < last {
                    assert(few@[j].0 == found@[j].0);
                    assert(found@[j].0 < found@[last].0);
                } else {
                    if j > last {
                        assert(few@[last].0 < few@[j].0);
                    }
                }
            } else {
                assert(some[last].0 < missed);
            }
        }
        assert(k == last);
        assert(lookup_ticket(storage@, id) == Lookup::Found(some[last].1));
        assert(lookup_ticket(storage@, id) == Lookup::Found(all[last].1));
        assert forall|i: int| 0 <= i < n implies (#[trigger] few@[i]).0 == found@[i].0
            && few@[i].1@ == found@[i].1@ by {}
    }
}

/// A row meets a query as the answer does: it is shown exactly where it is there, is not hidden by
/// its deletion, and has what the query sets.
pub proof fn a_row_meets_each_filter(
    row: Option<Vec<u8>>,
    query: TicketQuery,
    out: Option<StoredTicket>,
    t: Option<StoredTicket>,
)
    requires
        call_ensures(
            queried_ticket,
            (row, &query),
            Ok::<Option<StoredTicket>, StorageError>(out),
        ),
        call_ensures(
            crate::db::tickets::shown_ticket,
            (row, query.include_deleted),
            Ok::<Option<StoredTicket>, StorageError>(t),
        ),
    ensures
        out matches Some(o) ==> (t matches Some(s) && o@ == s@),
        out is Some <==> (t matches Some(s) && {
            &&& query.status matches Some(status) ==> s.index.status == status
            &&& query.assigned_to_uuid matches Some(user) ==> (s.index.assigned_to_uuid matches Some(
                assignee,
            ) && assignee@ == user@)
            &&& query.account_uuid matches Some(account) ==> s.index.account_uuid@ == account@
            &&& query.project matches Some(project) ==> s.index.project@ == project@
        }),
{
}

// ---- Indexes ----

/// An index over tickets lists a live ticket under the value that the ticket has in the field of
/// that index, and no ticket under another value.
pub proof fn an_index_lists_by_its_field(
    storage: Storage,
    tree: &str,
    value: &[u8],
    ids: Vec<u64>,
    id: u64,
    t: Option<StoredTicket>,
)
    requires
        tickets_consistent(storage@),
        is_unmistakable_in(storage@, tree@, value@),
        call_ensures(
            Storage::scan_index_ids,
            (&storage, tree, value),
            Ok::<Vec<u64>, StorageError>(ids),
        ),
        call_ensures(
            Storage::get_ticket,
            (&storage, id, false),
            Ok::<Option<StoredTicket>, StorageError>(t),
        ),
    ensures
        tree@ == "idx_ticket_status"@ ==> (ids@.contains(id) <==> (t matches Some(s) && value@
            == seq![s.index.status])),
        tree@ == "idx_ticket_account"@ ==> (ids@.contains(id) <==> (t matches Some(s) && value@
            == encode_utf8(s.index.account_uuid@))),
        tree@ == "idx_ticket_project"@ ==> (ids@.contains(id) <==> (t matches Some(s) && value@
            == encode_utf8(s.index.project@))),
        tree@ == "idx_ticket_assignee"@ ==> (ids@.contains(id) <==> (t matches Some(s) && (
        s.index.assigned_to_uuid matches Some(user) && value@ == encode_utf8(user@)))),
        tree@ == "idx_ticket_tracking"@ ==> (ids@.contains(id) <==> (t matches Some(s) && (
        s.index.tracking_url matches Some(url) && value@ == encode_utf8(url@)))),
        crate::db::rows::is_ticket_index(tree@) ==> forall|i: int, j: int|
            0 <= i < j < ids@.len() ==> #[trigger] ids@[i] < #[trigger] ids@[j],
{
    crate::db::rows::index_names_apart();
    if t is Some {
        let s = t->0;
        let values = crate::db::rows::ticket_index_values(s@.index);
        let n = if s@.index.assigned_to_uuid is Some {
            6int
        } else {
            5int
        };
        assert(values[0] == (crate::db::rows::IDX_TICKET_STATUS@, seq![s.index.status]));
        assert(values[1].1 == encode_utf8(s.index.account_uuid@));
        assert(values[2].1 == encode_utf8(s.index.project@));
        if s@.index.assigned_to_uuid is Some {
            assert(values[5].1 == encode_utf8(s@.index.assigned_to_uuid->0));
        }
        if s@.index.tracking_url is Some {
            assert(values[n].1 == encode_utf8(s@.index.tracking_url->0));
        }
        if ids@.contains(id) && crate::db::rows::is_ticket_index(tree@) {
            assert(is_live_under(storage@, id, tree@, value@));
            assert(values.contains((tree@, value@)));
            let k = choose|k: int| 0 <= k < values.len() && values[k] == (tree@, value@);
        }
    } else if ids@.contains(id) && crate::db::rows::is_ticket_index(tree@) {
        assert(is_live_under(storage@, id, tree@, value@));
    }
}

/// A query on the wire is answered with the records that have what it sets, field by field; a status
/// that is no byte is not looked at.
pub proof fn every_record_meets_every_filter(
    storage: Storage,
    req: WireTicketQuery,
    records: Vec<TicketRecord>,
    i: int,
    t: Option<StoredTicket>,
)
    requires
        tickets_consistent(storage@),
        call_ensures(query_tickets, (&storage, req), Ok::<Vec<TicketRecord>, Status>(records)),
        0 <= i < records@.len(),
        call_ensures(
            Storage::get_ticket,
            (&storage, records@[i].ticket_id, req.include_deleted),
            Ok::<Option<StoredTicket>, StorageError>(t),
        ),
    ensures
        t matches Some(s) && {
            &&& records@[i].encrypted_body@ == s.body@
            &&& records@[i].deleted == s.deleted
            &&& records@[i].deleted_at_unix == s.deleted_at_unix
            &&& req.status matches Some(n) ==> n <= 255 ==> s.index.status == n
            &&& req.assigned_to_uuid matches Some(user) ==> (s.index.assigned_to_uuid matches Some(
                assignee,
            ) && assignee@ == user@)
            &&& req.account_uuid matches Some(account) ==> s.index.account_uuid@ == account@
            &&& req.project matches Some(project) ==> s.index.project@ == project@
            &&& s.deleted ==> req.include_deleted
        },
        forall|j: int| 0 <= j < i ==> (#[trigger] records@[j]).ticket_id < records@[i].ticket_id,
        req.limit > 0 ==> records@.len() <= req.limit,
{
    let query = crate::db::server::query_of(req);
    let found = choose|found: Seq<(u64, crate::db::rows::TicketView)>| #[trigger]
        crate::db::consistency::is_answer(storage@, query, found)
            && crate::db::server::shows_tickets(records@, found);
    assert(is_wanted(storage@, query, found[i].0));
    assert forall|j: int| 0 <= j < i implies (#[trigger] records@[j]).ticket_id
        < records@[i].ticket_id by {
        assert(found[j].0 < found[i].0);
    }
}

/// Every ticket that has what a query on the wire sets is among the records, unless the limit is
/// reached before it.
pub proof fn every_match_has_a_record(
    storage: Storage,
    req: WireTicketQuery,
    records: Vec<TicketRecord>,
    id: u64,
    t: StoredTicket,
)
    requires
        tickets_consistent(storage@),
        call_ensures(query_tickets, (&storage, req), Ok::<Vec<TicketRecord>, Status>(records)),
        call_ensures(
            Storage::get_ticket,
            (&storage, id, req.include_deleted),
            Ok::<Option<StoredTicket>, StorageError>(Some(t)),
        ),
        req.status matches Some(n) ==> n <= 255 ==> t.index.status == n,
        req.assigned_to_uuid matches Some(user) ==> (t.index.assigned_to_uuid matches Some(
            assignee,
        ) && assignee@ == user@),
        req.account_uuid matches Some(account) ==> t.index.account_uuid@ == account@,
        req.project matches Some(project) ==> t.index.project@ == project@,
    ensures
        (exists|i: int| 0 <= i < records@.len() && (#[trigger] records@[i]).ticket_id == id) || (
        req.limit > 0 && records@.len() == req.limit && forall|i: int|
            0 <= i < records@.len() ==> (#[trigger] records@[i]).ticket_id < id),
{
    let query = crate::db::server::query_of(req);
    let found = choose|found: Seq<(u64, crate::db::rows::TicketView)>| #[trigger]
        crate::db::consistency::is_answer(storage@, query, found)
            && crate::db::server::shows_tickets(records@, found);
    assert(is_wanted(storage@, query, id));
    if has_id(found, id) {
        let i = choose|i: int| 0 <= i < found.len() && (#[trigger] found[i]).0 == id;
        assert(records@[i].ticket_id == id);
    } else {
        assert forall|i: int| 0 <= i < records@.len() implies (#[trigger] records@[i]).ticket_id
            < id by {
            assert(found[i].0 < id);
        }
    }
}

/// A ticket that is created is found by every query for what it has, under its number and with its
/// body; unless a limit was reached before it.
pub proof fn a_created_ticket_is_found(
    storage: &mut Storage,
    body: &[u8],
    index: TicketIndexFields,
    id: u64,
    query: TicketQuery,
    found: Vec<(u64, StoredTicket)>,
    alone: Option<StoredTicket>,
    i: int,
)
    requires
        tickets_consistent(old(storage)@) && ids_below_counter(old(storage)@),
        call_ensures(Storage::create_ticket, (storage, body, &index), Ok::<u64, StorageError>(id)),
        call_ensures(
            Storage::query_tickets,
            (final(storage), &query),
            Ok::<Vec<(u64, StoredTicket)>, StorageError>(found),
        ),
        call_ensures(
            Storage::get_ticket,
            (final(storage), id, query.include_deleted),
            Ok::<Option<StoredTicket>, StorageError>(alone),
        ),
        query.status matches Some(status) ==> index.status == status,
        query.assigned_to_uuid matches Some(user) ==> (index.assigned_to_uuid matches Some(assignee)
            && assignee@ == user@),
        query.account_uuid matches Some(account) ==> index.account_uuid@ == account@,
        query.project matches Some(project) ==> index.project@ == project@,
        query.limit == 0,
    ensures
        exists|k: int| 0 <= k < found@.len() && (#[trigger] found@[k]).0 == id,
        0 <= i < found@.len() && found@[i].0 == id ==> found@[i].1.body@ == body@
            && !found@[i].1.deleted,
{
    let t = alone->0;
    assert(t@ == crate::db::storage::new_ticket(body@, index@));
    every_match_is_answered(*final(storage), query, found, id, t);
    if 0 <= i < found@.len() && found@[i].0 == id {
        every_answer_meets_every_filter(*final(storage), query, found, i, alone);
    }
}

/// A ticket that is deleted is found by no query, but by those that ask for deleted ones.
pub proof fn a_deleted_ticket_is_not_found(
    storage: &mut Storage,
    id: u64,
    at: i64,
    query: TicketQuery,
    found: Vec<(u64, StoredTicket)>,
    alone: Option<StoredTicket>,
    i: int,
)
    requires
        tickets_consistent(old(storage)@),
        call_ensures(Storage::soft_delete_ticket, (storage, id, at), Ok::<(), StorageError>(())),
        call_ensures(
            Storage::query_tickets,
            (final(storage), &query),
            Ok::<Vec<(u64, StoredTicket)>, StorageError>(found),
        ),
        0 <= i < found@.len(),
        call_ensures(
            Storage::get_ticket,
            (final(storage), id, query.include_deleted),
            Ok::<Option<StoredTicket>, StorageError>(alone),
        ),
    ensures
        !query.include_deleted ==> found@[i].0 != id,
        found@[i].0 == id ==> found@[i].1.deleted && found@[i].1.deleted_at_unix == at,
{
    if found@[i].0 == id {
        every_answer_meets_every_filter(*final(storage), query, found, i, alone);
    }
}

/// A ticket that is changed is found by what it has now, and by nothing else.
pub proof fn a_changed_ticket_is_found_by_what_it_has(
    storage: &mut Storage,
    id: u64,
    body: &[u8],
    index: TicketIndexFields,
    query: TicketQuery,
    found: Vec<(u64, StoredTicket)>,
    alone: Option<StoredTicket>,
    i: int,
)
    requires
        tickets_consistent(old(storage)@),
        call_ensures(
            Storage::update_ticket,
            (storage, id, body, &index),
            Ok::<(), StorageError>(()),
        ),
        call_ensures(
            Storage::query_tickets,
            (final(storage), &query),
            Ok::<Vec<(u64, StoredTicket)>, StorageError>(found),
        ),
        0 <= i < found@.len(),
        found@[i].0 == id,
        call_ensures(
            Storage::get_ticket,
            (final(storage), id, query.include_deleted),
            Ok::<Option<StoredTicket>, StorageError>(alone),
        ),
    ensures
        found@[i].1.body@ == body@,
        query.status matches Some(status) ==> index.status == status,
        query.assigned_to_uuid matches Some(user) ==> (index.assigned_to_uuid matches Some(assignee)
            && assignee@ == user@),
        query.account_uuid matches Some(account) ==> index.account_uuid@ == account@,
        query.project matches Some(project) ==> index.project@ == project@,
{
    every_answer_meets_every_filter(*final(storage), query, found, i, alone);
    assert(found@[i].1@.index == index@);
}

} // verus!
