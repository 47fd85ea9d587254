//! Storage: what was written is read back, what was deleted is gone, and nothing else changes.

use vstd::prelude::*;
use vstd::utf8::encode_utf8;

use crate::bytes::{be8, be8_injective, be8_round_trip, lex_lt};
use crate::db::consistency::{ids_below_counter, other_rows_stay, tickets_consistent};
use crate::db::rows::{
    ticket_index_entries, user_index_entries, StoredTicket, StoredUser, TicketIndexFields,
    UserIndexFields,
};
use crate::db::storage::{
    at_most, first_pairs, index_key, index_prefix, lookup_ticket, pair_writes, read_ticket,
    read_user, SEQ_TICKET, Storage, StorageError,
};
use crate::db::tickets::{
    deleted_ticket, ids_in_keys, ids_in_values, row_trees_apart, shown_ticket,
    ticket_entries_in_indexes, updated_ticket,
};
use crate::db::user_consistency::{is_plain, is_unmistakable, other_users_stay, users_consistent};
use crate::db::users::{
    deleted_user, shown_user, texts_in_values, updated_user, user_entries_in_indexes,
};
use crate::store::{holds_nothing, not_after, not_before, pairs_of};
use crate::text::{blob_of, dec, text_of, texts_of, utf8_injective};

verus! {

/// Storage gives the value under the key.
pub open spec fn gets(s: Storage, tree: &str, key: &[u8], value: Option<Vec<u8>>) -> bool {
    call_ensures(Storage::get, (&s, tree, key), Ok::<Option<Vec<u8>>, StorageError>(value))
}

/// Storage gives the ticket, deleted or not.
pub open spec fn gets_ticket(s: Storage, id: u64, t: Option<StoredTicket>) -> bool {
    call_ensures(
        Storage::get_ticket,
        (&s, id, true),
        Ok::<Option<StoredTicket>, StorageError>(t),
    )
}

/// Storage gives the user, deleted or not.
pub open spec fn gets_user(s: Storage, uuid: &str, u: Option<StoredUser>) -> bool {
    call_ensures(Storage::get_user, (&s, uuid, true), Ok::<Option<StoredUser>, StorageError>(u))
}

/// The fields say the same.
pub open spec fn same_ticket_fields(a: TicketIndexFields, b: TicketIndexFields) -> bool {
    &&& a.status == b.status
    &&& a.account_uuid@ == b.account_uuid@
    &&& text_of(a.assigned_to_uuid) == text_of(b.assigned_to_uuid)
    &&& a.project@ == b.project@
    &&& text_of(a.tracking_url) == text_of(b.tracking_url)
    &&& a.created_at_unix == b.created_at_unix
    &&& a.updated_at_unix == b.updated_at_unix
}

/// The fields say the same.
pub open spec fn same_user_fields(a: UserIndexFields, b: UserIndexFields) -> bool {
    a.username@ == b.username@ && a.email@ == b.email@ && a.role == b.role
}

/// Two answers for a ticket say the same.
pub open spec fn same_ticket(a: Option<StoredTicket>, b: Option<StoredTicket>) -> bool {
    match a {
        Some(t) => b matches Some(u) && t.body@ == u.body@ && same_ticket_fields(t.index, u.index)
            && t.deleted == u.deleted && t.deleted_at_unix == u.deleted_at_unix,
        None => b is None,
    }
}

/// Two answers for a user say the same.
pub open spec fn same_user(a: Option<StoredUser>, b: Option<StoredUser>) -> bool {
    match a {
        Some(t) => b matches Some(u) && t.body@ == u.body@ && same_user_fields(t.index, u.index)
            && t.deleted == u.deleted && t.deleted_at_unix == u.deleted_at_unix,
        None => b is None,
    }
}

// ---- Values ----

/// What is put under a key is read back from it, and every other key keeps its value.
pub proof fn what_is_put_is_got(
    s: &mut Storage,
    tree: &str,
    key: &[u8],
    value: &[u8],
    t: &str,
    k: &[u8],
    before: Option<Vec<u8>>,
    after: Option<Vec<u8>>,
)
    requires
        call_ensures(Storage::put, (s, tree, key, value), Ok::<(), StorageError>(())),
        gets(*old(s), t, k, before),
        gets(*final(s), t, k, after),
    ensures
        t@ == tree@ && k@ == key@ ==> blob_of(after) == Some(value@),
        !(t@ == tree@ && k@ == key@) ==> blob_of(after) == blob_of(before),
{
}

/// What is deleted is gone, and every other key keeps its value.
pub proof fn what_is_deleted_is_gone(
    s: &mut Storage,
    tree: &str,
    key: &[u8],
    t: &str,
    k: &[u8],
    before: Option<Vec<u8>>,
    after: Option<Vec<u8>>,
)
    requires
        call_ensures(Storage::delete, (s, tree, key), Ok::<(), StorageError>(())),
        gets(*old(s), t, k, before),
        gets(*final(s), t, k, after),
    ensures
        t@ == tree@ && k@ == key@ ==> after is None,
        !(t@ == tree@ && k@ == key@) ==> blob_of(after) == blob_of(before),
{
}

/// A batch writes the last value of each key in it.
proof fn batch_has_the_last(pairs: Seq<(Seq<u8>, Seq<u8>)>, key: Seq<u8>)
    ensures
        pair_writes(pairs).contains_key(key) <==> exists|i: int|
            0 <= i < pairs.len() && (#[trigger] pairs[i]).0 == key,
        forall|i: int|
            0 <= i < pairs.len() && (#[trigger] pairs[i]).0 == key && (forall|j: int|
                i < j < pairs.len() ==> (#[trigger] pairs[j]).0 != key) ==> pair_writes(pairs)[key]
                == Some(pairs[i].1),
    decreases pairs.len(),
{
    if pairs.len() > 0 {
        let fewer = pairs.drop_last();
        let n = pairs.len() - 1;
        batch_has_the_last(fewer, key);
        if pairs[n].0 == key {
            assert(pair_writes(pairs).contains_key(key));
        } else if pair_writes(fewer).contains_key(key) {
            let i = choose|i: int| 0 <= i < fewer.len() && (#[trigger] fewer[i]).0 == key;
            assert(pairs[i].0 == key);
        }
        assert forall|i: int|
            0 <= i < pairs.len() && (#[trigger] pairs[i]).0 == key && (forall|j: int|
                i < j < pairs.len() ==> (#[trigger] pairs[j]).0 != key) implies pair_writes(pairs)[key]
            == Some(pairs[i].1) by {
            if i < n {
                assert(pairs[n].0 != key);
                assert(fewer[i].0 == key);
                assert forall|j: int| i < j < fewer.len() implies (#[trigger] fewer[j]).0 != key by {
                    assert(pairs[j].0 != key);
                }
            }
        }
        if exists|i: int| 0 <= i < pairs.len() && (#[trigger] pairs[i]).0 == key {
            let i = choose|i: int| 0 <= i < pairs.len() && (#[trigger] pairs[i]).0 == key;
            if i < n {
                assert(fewer[i].0 == key);
            }
        }
    }
}

/// A batch puts all its pairs, the last of each key, counts them, and leaves every other key.
pub proof fn a_batch_puts_all(
    s: &mut Storage,
    tree: &str,
    pairs: Vec<(Vec<u8>, Vec<u8>)>,
    count: usize,
    t: &str,
    k: &[u8],
    before: Option<Vec<u8>>,
    after: Option<Vec<u8>>,
)
    requires
        call_ensures(Storage::batch_put, (s, tree, &pairs), Ok::<usize, StorageError>(count)),
        gets(*old(s), t, k, before),
        gets(*final(s), t, k, after),
    ensures
        count == pairs@.len(),
        t@ != tree@ || (forall|i: int| 0 <= i < pairs@.len() ==> (#[trigger] pairs@[i]).0@ != k@)
            ==> blob_of(after) == blob_of(before),
        t@ == tree@ ==> forall|i: int|
            0 <= i < pairs@.len() && (#[trigger] pairs@[i]).0@ == k@ && (forall|j: int|
                i < j < pairs@.len() ==> (#[trigger] pairs@[j]).0@ != k@) ==> blob_of(after) == Some(
                pairs@[i].1@,
            ),
{
    let all = pairs_of(pairs@);
    batch_has_the_last(all, k@);
    assert(all.len() == pairs@.len());
    if pair_writes(all).contains_key(k@) {
        let i = choose|i: int| 0 <= i < all.len() && (#[trigger] all[i]).0 == k@;
        assert(pairs@[i].0@ == k@);
    }
    assert forall|i: int|
        t@ == tree@ && 0 <= i < pairs@.len() && (#[trigger] pairs@[i]).0@ == k@ && (forall|j: int|
            i < j < pairs@.len() ==> (#[trigger] pairs@[j]).0@ != k@) implies blob_of(after)
        == Some(pairs@[i].1@) by {
        assert(all[i].0 == k@);
        assert forall|j: int| i < j < all.len() implies (#[trigger] all[j]).0 != k@ by {
            assert(pairs@[j].0@ != k@);
        }
        assert(pair_writes(all)[k@] == Some(all[i].1));
        assert(pair_writes(all).contains_key(k@));
    }
}

/// A key is there exactly where a value is got from it.
pub proof fn a_key_is_there_with_its_value(
    s: Storage,
    tree: &str,
    key: &[u8],
    value: Option<Vec<u8>>,
    found: bool,
)
    requires
        gets(s, tree, key, value),
        call_ensures(Storage::has_key, (&s, tree, key), Ok::<bool, StorageError>(found)),
    ensures
        found <==> value is Some,
{
}

/// A listing gives every pair whose key begins as asked, each once and in the order of the keys, or
/// the first of them up to the limit.
pub proof fn a_listing_gives_the_pairs(
    s: Storage,
    tree: &str,
    prefix: &[u8],
    limit: Option<usize>,
    pairs: Vec<(Vec<u8>, Vec<u8>)>,
    i: int,
    key: &[u8],
    value: Option<Vec<u8>>,
)
    requires
        call_ensures(
            Storage::list,
            (&s, tree, prefix, limit),
            Ok::<Vec<(Vec<u8>, Vec<u8>)>, StorageError>(pairs),
        ),
        gets(s, tree, key, value),
    ensures
        0 <= i < pairs@.len() ==> prefix@.is_prefix_of(pairs@[i].0@) && (pairs@[i].0@ == key@
            ==> blob_of(value) == Some(pairs@[i].1@)),
        forall|a: int, b: int|
            0 <= a < b < pairs@.len() ==> lex_lt((#[trigger] pairs@[a]).0@, (#[trigger] pairs@[b]).0@),
        limit matches Some(most) ==> pairs@.len() <= most,
        value is Some && prefix@.is_prefix_of(key@) ==> (exists|a: int|
            0 <= a < pairs@.len() && (#[trigger] pairs@[a]).0@ == key@) || (limit matches Some(most)
            && pairs@.len() == most && forall|a: int|
            0 <= a < pairs@.len() ==> lex_lt((#[trigger] pairs@[a]).0@, key@)),
{
    let all = choose|all: Seq<(Seq<u8>, Seq<u8>)>|
        crate::store::is_listing(s@, tree@, crate::store::starting_with(prefix@), all) && pairs_of(
            pairs@,
        ) == #[trigger] at_most(all, limit);
    let shown = pairs_of(pairs@);
    assert(shown.len() == pairs@.len());
    if 0 <= i < pairs@.len() {
        assert(shown[i] == all[i]);
        assert(crate::store::starting_with(prefix@)(all[i].0));
        assert(prefix@ =~= all[i].0.take(prefix@.len() as int));
    }
    assert forall|a: int, b: int| 0 <= a < b < pairs@.len() implies lex_lt(
        (#[trigger] pairs@[a]).0@,
        (#[trigger] pairs@[b]).0@,
    ) by {
        assert(shown[a] == all[a] && shown[b] == all[b]);
        assert(lex_lt(all[a].0, all[b].0));
    }
    if value is Some && prefix@.is_prefix_of(key@) {
        assert(prefix@ =~= key@.take(prefix@.len() as int));
        assert(crate::store::starting_with(prefix@)(key@));
        assert(s@.dom().contains((tree@, key@)));
        let n = choose|n: int| 0 <= n < all.len() && (#[trigger] all[n]).0 == key@;
        if n < pairs@.len() {
            assert(shown[n] == all[n]);
            assert(pairs@[n].0@ == key@);
        } else {
            assert forall|a: int| 0 <= a < pairs@.len() implies lex_lt(
                (#[trigger] pairs@[a]).0@,
                key@,
            ) by {
                assert(shown[a] == all[a]);
                assert(lex_lt(all[a].0, all[n].0));
            }
        }
    }
}

/// The first pairs of a listing are its first pairs.
pub proof fn the_first_pairs_are_first(
    pairs: Vec<(Vec<u8>, Vec<u8>)>,
    limit: Option<usize>,
    out: Vec<(Vec<u8>, Vec<u8>)>,
    i: int,
)
    requires
        call_ensures(first_pairs, (pairs, limit), out),
    ensures
        out@.len() == (match limit {
            Some(most) => if most < pairs@.len() {
                most as nat
            } else {
                pairs@.len()
            },
            None => pairs@.len(),
        }),
        0 <= i < out@.len() ==> out@[i].0@ == pairs@[i].0@ && out@[i].1@ == pairs@[i].1@,
{
    let (a, b) = (pairs_of(pairs@), pairs_of(out@));
    assert(a.len() == pairs@.len() && b.len() == out@.len());
    if 0 <= i < out@.len() {
        assert(b[i] == a[i]);
    }
}

/// A new storage for a while holds nothing.
pub proof fn a_new_storage_is_empty(s: Storage, tree: &str, key: &[u8], value: Option<Vec<u8>>)
    requires
        call_ensures(Storage::new_temp, (), Ok::<Storage, StorageError>(s)),
        gets(s, tree, key, value),
    ensures
        value is None,
        tickets_consistent(s@),
        ids_below_counter(s@),
{
    crate::db::consistency::empty_is_consistent(s@);
}

/// Numbers of one name count up by one, from one, whatever else is counted.
pub proof fn numbers_count_up(
    s: &mut Storage,
    t: &mut Storage,
    name: &[u8],
    first: u64,
    other: &[u8],
    second: u64,
)
    requires
        call_ensures(Storage::next_id, (s, name), Ok::<u64, StorageError>(first)),
        *old(t) == *final(s),
        call_ensures(Storage::next_id, (t, other), Ok::<u64, StorageError>(second)),
        first < u64::MAX,
    ensures
        other@ == name@ ==> second == first + 1,
        holds_nothing(old(s)@) ==> first == 1,
        holds_nothing(old(s)@) && other@ != name@ ==> second == 1,
{
    be8_round_trip(first);
}

/// The key of an index entry is the value, a zero byte and the entity, and it begins as all entries
/// for the value do.
pub proof fn index_keys_begin_with_the_value(
    value: &[u8],
    entity: &[u8],
    key: Vec<u8>,
    prefix: Vec<u8>,
)
    requires
        call_ensures(index_key, (value, entity), key),
        call_ensures(index_prefix, (value,), prefix),
    ensures
        prefix@ == value@.push(0),
        key@ == prefix@ + entity@,
{
    assert(prefix@ =~= value@.push(0));
}

/// Ids are read from the keys, or the values, that are eight bytes long.
pub proof fn ids_are_eight_bytes(pairs: Vec<(Vec<u8>, Vec<u8>)>, keys: Vec<u64>, values: Vec<u64>, n: u64)
    requires
        call_ensures(ids_in_keys, (&pairs,), keys),
        call_ensures(ids_in_values, (&pairs,), values),
        forall|i: int| 0 <= i < pairs@.len() ==> (#[trigger] pairs@[i]).0@ == be8((n + i) as u64),
        forall|i: int| 0 <= i < pairs@.len() ==> (#[trigger] pairs@[i]).1@ == be8((n + i) as u64),
        n + pairs@.len() <= u64::MAX,
    ensures
        keys@.len() == pairs@.len(),
        values@.len() == pairs@.len(),
        forall|i: int| 0 <= i < keys@.len() ==> #[trigger] keys@[i] == n + i,
        forall|i: int| 0 <= i < values@.len() ==> #[trigger] values@[i] == n + i,
{
    let all = pairs_of(pairs@);
    assert forall|i: int| 0 <= i < all.len() implies (#[trigger] all[i]).0 == be8((n + i) as u64)
        && all[i].1 == be8((n + i) as u64) by {
        assert(pairs@[i].0@ == be8((n + i) as u64));
        assert(pairs@[i].1@ == be8((n + i) as u64));
    }
    ids_of_numbers(all, n as int);
}

proof fn ids_of_numbers(all: Seq<(Seq<u8>, Seq<u8>)>, n: int)
    requires
        0 <= n,
        n + all.len() <= u64::MAX,
        forall|i: int|
            0 <= i < all.len() ==> (#[trigger] all[i]).0 == be8((n + i) as u64) && all[i].1 == be8(
                (n + i) as u64,
            ),
    ensures
        crate::db::storage::key_ids(all).len() == all.len(),
        crate::db::storage::value_ids(all).len() == all.len(),
        forall|i: int| 0 <= i < all.len() ==> #[trigger] crate::db::storage::key_ids(all)[i] == n + i,
        forall|i: int|
            0 <= i < all.len() ==> #[trigger] crate::db::storage::value_ids(all)[i] == n + i,
    decreases all.len(),
{
    if all.len() > 0 {
        let fewer = all.drop_last();
        assert forall|i: int| 0 <= i < fewer.len() implies (#[trigger] fewer[i]).0 == be8(
            (n + i) as u64,
        ) && fewer[i].1 == be8((n + i) as u64) by {
            assert(all[i] == fewer[i]);
        }
        ids_of_numbers(fewer, n);
        let last = all.len() - 1;
        assert(all[last].0 == be8((n + last) as u64));
        be8_round_trip((n + last) as u64);
    }
}

/// Texts are read from the values: those that are text come back as it.
pub proof fn texts_come_back(pairs: Vec<(Vec<u8>, Vec<u8>)>, out: Vec<String>, i: int, text: Seq<char>)
    requires
        call_ensures(texts_in_values, (&pairs,), out),
        0 <= i < pairs@.len(),
        pairs@[i].1@ == encode_utf8(text),
    ensures
        out@.len() == pairs@.len(),
        out@[i]@ == text,
{
    let all = pairs_of(pairs@);
    vstd::utf8::encode_utf8_valid_utf8(text);
    vstd::utf8::encode_utf8_decode_utf8(text);
    assert(all[i].1 == encode_utf8(text));
    let texts = crate::text::texts_of(out@);
    assert(texts.len() == out@.len());
    assert(texts[i] == out@[i]@);
}

// ---- Tickets ----

/// A created ticket is got by its number as it was given, live, and no other ticket changes.
pub proof fn a_created_ticket_is_got(
    s: &mut Storage,
    body: &[u8],
    index: TicketIndexFields,
    id: u64,
    other: u64,
    before: Option<StoredTicket>,
    after: Option<StoredTicket>,
)
    requires
        call_ensures(Storage::create_ticket, (s, body, &index), Ok::<u64, StorageError>(id)),
        gets_ticket(*old(s), other, before),
        gets_ticket(*final(s), other, after),
    ensures
        other == id ==> (after matches Some(t) && t.body@ == body@ && same_ticket_fields(
            t.index,
            index,
        ) && !t.deleted && t.deleted_at_unix == 0),
        other != id ==> same_ticket(before, after),
        tickets_consistent(old(s)@) && ids_below_counter(old(s)@) && other == id ==> before is None,
{
    row_trees_apart();
    if other != id {
        if be8(id) == be8(other) {
            be8_injective(id, other);
        }
        let at = crate::db::storage::ticket_at(other);
        if crate::db::storage::is_entry(
            crate::db::rows::ticket_index_values(index@),
            be8(id),
            at,
        ) {
            ticket_entries_in_indexes(index@, be8(id), at);
        }
    }
}

/// Tickets are numbered one after the other, from one.
pub proof fn tickets_are_numbered_on(
    s: &mut Storage,
    t: &mut Storage,
    body: &[u8],
    index: TicketIndexFields,
    first: u64,
    second: u64,
)
    requires
        call_ensures(Storage::create_ticket, (s, body, &index), Ok::<u64, StorageError>(first)),
        *old(t) == *final(s),
        call_ensures(Storage::create_ticket, (t, body, &index), Ok::<u64, StorageError>(second)),
        first < u64::MAX,
    ensures
        second == first + 1,
        holds_nothing(old(s)@) ==> first == 1,
{
    row_trees_apart();
    be8_round_trip(first);
    let at = crate::db::storage::counter_at(encode_utf8(SEQ_TICKET@));
    if crate::db::storage::is_entry(crate::db::rows::ticket_index_values(index@), be8(first), at) {
        ticket_entries_in_indexes(index@, be8(first), at);
    }
}

/// An updated ticket has the new body and the new fields, deleted or live as it was, and no other
/// ticket changes. There must be such a ticket.
pub proof fn an_updated_ticket_is_got(
    s: &mut Storage,
    id: u64,
    body: &[u8],
    index: TicketIndexFields,
    other: u64,
    before: Option<StoredTicket>,
    after: Option<StoredTicket>,
)
    requires
        call_ensures(Storage::update_ticket, (s, id, body, &index), Ok::<(), StorageError>(())),
        gets_ticket(*old(s), other, before),
        gets_ticket(*final(s), other, after),
    ensures
        other == id ==> (before matches Some(b) && (after matches Some(t) && t.body@ == body@
            && same_ticket_fields(t.index, index) && t.deleted == b.deleted && t.deleted_at_unix
            == b.deleted_at_unix)),
        other != id ==> same_ticket(before, after),
{
    if other != id {
        let b = lookup_ticket(old(s)@, id)->Found_0;
        let a = crate::db::rows::TicketView { body: body@, index: index@, ..b };
        other_rows_stay(old(s)@, id, b, a, other);
    }
}

/// A deleted ticket is hidden, and shown to those who ask for deleted ones as it was, with the mark
/// of when it was deleted. No other ticket changes.
pub proof fn a_deleted_ticket_is_hidden(
    s: &mut Storage,
    id: u64,
    at: i64,
    other: u64,
    before: Option<StoredTicket>,
    after: Option<StoredTicket>,
    live: Option<StoredTicket>,
)
    requires
        call_ensures(Storage::soft_delete_ticket, (s, id, at), Ok::<(), StorageError>(())),
        gets_ticket(*old(s), other, before),
        gets_ticket(*final(s), other, after),
        call_ensures(
            Storage::get_ticket,
            (final(s), id, false),
            Ok::<Option<StoredTicket>, StorageError>(live),
        ),
    ensures
        live is None,
        other == id ==> (before matches Some(b) && (after matches Some(t) && t.body@ == b.body@
            && same_ticket_fields(t.index, b.index) && t.deleted && t.deleted_at_unix == at)),
        other != id ==> same_ticket(before, after),
{
    if other != id {
        let b = lookup_ticket(old(s)@, id)->Found_0;
        let a = crate::db::rows::TicketView { deleted: true, deleted_at_unix: at, ..b };
        other_rows_stay(old(s)@, id, b, a, other);
    }
}

/// To ask for live tickets only hides the deleted ones, and nothing else.
pub proof fn only_deleted_tickets_are_hidden(
    s: Storage,
    id: u64,
    any: Option<StoredTicket>,
    live: Option<StoredTicket>,
)
    requires
        gets_ticket(s, id, any),
        call_ensures(
            Storage::get_ticket,
            (&s, id, false),
            Ok::<Option<StoredTicket>, StorageError>(live),
        ),
    ensures
        live is Some <==> (any matches Some(t) && !t.deleted),
        live is Some ==> same_ticket(live, any),
{
}

/// A ticket that is not there can be neither updated nor deleted; the answer says which it is, and
/// nothing changes.
pub proof fn a_missing_ticket_stays_missing(
    s: &mut Storage,
    t: &mut Storage,
    id: u64,
    body: &[u8],
    index: TicketIndexFields,
    at: i64,
    updated: Result<(), StorageError>,
    deleted: Result<(), StorageError>,
)
    requires
        gets_ticket(*old(s), id, None),
        gets_ticket(*old(t), id, None),
        call_ensures(Storage::update_ticket, (s, id, body, &index), updated),
        call_ensures(Storage::soft_delete_ticket, (t, id, at), deleted),
    ensures
        updated is Err && deleted is Err,
        updated matches Err(StorageError::NotFound(text)) ==> text@ == "ticket "@ + dec(id as nat)
            + " not found"@ && final(s)@ == old(s)@,
        deleted matches Err(StorageError::NotFound(text)) ==> text@ == "ticket "@ + dec(id as nat)
            + " not found"@ && final(t)@ == old(t)@,
        !(updated matches Err(StorageError::Corrupt(_))),
        !(deleted matches Err(StorageError::Corrupt(_))),
{
}

/// A row that is changed keeps its deletion mark, and one that is deleted keeps its contents.
pub proof fn rows_of_tickets_change_in_part(
    id: u64,
    row: Option<Vec<u8>>,
    body: &[u8],
    index: TicketIndexFields,
    at: i64,
    shown: Option<StoredTicket>,
    updated: Result<(StoredTicket, StoredTicket), StorageError>,
    deleted: Result<(StoredTicket, StoredTicket), StorageError>,
)
    requires
        call_ensures(shown_ticket, (row, true), Ok::<Option<StoredTicket>, StorageError>(shown)),
        call_ensures(updated_ticket, (id, row, body, &index), updated),
        call_ensures(deleted_ticket, (id, row, at), deleted),
    ensures
        shown is None ==> (updated matches Err(StorageError::NotFound(_))) && (deleted matches Err(
            StorageError::NotFound(_),
        )),
        shown matches Some(b) ==> {
            &&& updated matches Ok((was, now)) && same_ticket(Some(was), shown) && now.body@ == body@
                && same_ticket_fields(now.index, index) && now.deleted == b.deleted
                && now.deleted_at_unix == b.deleted_at_unix
            &&& deleted matches Ok((was, now)) && same_ticket(Some(was), shown) && now.body@
                == b.body@ && same_ticket_fields(now.index, b.index) && now.deleted
                && now.deleted_at_unix == at
        },
{
}

// ---- Users ----

/// A created user is got as given, live, and no other user changes.
pub proof fn a_created_user_is_got(
    s: &mut Storage,
    uuid: &str,
    body: &[u8],
    index: UserIndexFields,
    other: &str,
    before: Option<StoredUser>,
    after: Option<StoredUser>,
)
    requires
        call_ensures(Storage::create_user, (s, uuid, body, &index), Ok::<(), StorageError>(())),
        gets_user(*old(s), other, before),
        gets_user(*final(s), other, after),
    ensures
        other@ == uuid@ ==> (after matches Some(u) && u.body@ == body@ && same_user_fields(
            u.index,
            index,
        ) && !u.deleted && u.deleted_at_unix == 0),
        other@ != uuid@ ==> same_user(before, after),
{
    row_trees_apart();
    if other@ != uuid@ {
        let d = encode_utf8(uuid@);
        if d == encode_utf8(other@) {
            utf8_injective(uuid@, other@);
        }
        let at = crate::db::storage::user_at(other@);
        if crate::db::storage::is_entry(crate::db::rows::user_index_values(index@), d, at) {
            user_entries_in_indexes(index@, d, at);
        }
    }
}

/// An updated user has the new body and the new fields, deleted or live as it was, and no other
/// user changes.
pub proof fn an_updated_user_is_got(
    s: &mut Storage,
    uuid: &str,
    body: &[u8],
    index: UserIndexFields,
    other: &str,
    before: Option<StoredUser>,
    after: Option<StoredUser>,
)
    requires
        call_ensures(Storage::update_user, (s, uuid, body, &index), Ok::<(), StorageError>(())),
        gets_user(*old(s), other, before),
        gets_user(*final(s), other, after),
    ensures
        other@ == uuid@ ==> (before matches Some(b) && (after matches Some(u) && u.body@ == body@
            && same_user_fields(u.index, index) && u.deleted == b.deleted && u.deleted_at_unix
            == b.deleted_at_unix)),
        other@ != uuid@ ==> same_user(before, after),
{
    if other@ != uuid@ {
        let b = crate::db::storage::lookup_user(old(s)@, uuid@)->Found_0;
        let a = crate::db::rows::UserView { body: body@, index: index@, ..b };
        other_users_stay(old(s)@, uuid@, b, a, other@);
    }
}

/// A deleted user is hidden, and shown to those who ask for deleted ones as it was, with the mark
/// of when it was deleted. No other user changes.
pub proof fn a_deleted_user_is_hidden(
    s: &mut Storage,
    uuid: &str,
    at: i64,
    other: &str,
    before: Option<StoredUser>,
    after: Option<StoredUser>,
    live: Option<StoredUser>,
)
    requires
        call_ensures(Storage::soft_delete_user, (s, uuid, at), Ok::<(), StorageError>(())),
        gets_user(*old(s), other, before),
        gets_user(*final(s), other, after),
        call_ensures(
            Storage::get_user,
            (final(s), uuid, false),
            Ok::<Option<StoredUser>, StorageError>(live),
        ),
    ensures
        live is None,
        other@ == uuid@ ==> (before matches Some(b) && (after matches Some(u) && u.body@ == b.body@
            && same_user_fields(u.index, b.index) && u.deleted && u.deleted_at_unix == at)),
        other@ != uuid@ ==> same_user(before, after),
{
    if other@ != uuid@ {
        let b = crate::db::storage::lookup_user(old(s)@, uuid@)->Found_0;
        let a = crate::db::rows::UserView { deleted: true, deleted_at_unix: at, ..b };
        other_users_stay(old(s)@, uuid@, b, a, other@);
    }
}

/// To ask for live users only hides the deleted ones, and nothing else.
pub proof fn only_deleted_users_are_hidden(
    s: Storage,
    uuid: &str,
    any: Option<StoredUser>,
    live: Option<StoredUser>,
)
    requires
        gets_user(s, uuid, any),
        call_ensures(
            Storage::get_user,
            (&s, uuid, false),
            Ok::<Option<StoredUser>, StorageError>(live),
        ),
    ensures
        live is Some <==> (any matches Some(u) && !u.deleted),
        live is Some ==> same_user(live, any),
{
}

/// A row that is changed keeps its deletion mark, and one that is deleted keeps its contents.
pub proof fn rows_of_users_change_in_part(
    uuid: &str,
    row: Option<Vec<u8>>,
    body: &[u8],
    index: UserIndexFields,
    at: i64,
    shown: Option<StoredUser>,
    updated: Result<(StoredUser, StoredUser), StorageError>,
    deleted: Result<(StoredUser, StoredUser), StorageError>,
)
    requires
        call_ensures(shown_user, (row, true), Ok::<Option<StoredUser>, StorageError>(shown)),
        call_ensures(updated_user, (uuid, row, body, &index), updated),
        call_ensures(deleted_user, (uuid, row, at), deleted),
    ensures
        shown is None ==> (updated matches Err(StorageError::NotFound(_))) && (deleted matches Err(
            StorageError::NotFound(_),
        )),
        shown matches Some(b) ==> {
            &&& updated matches Ok((was, now)) && same_user(Some(was), shown) && now.body@ == body@
                && same_user_fields(now.index, index) && now.deleted == b.deleted
                && now.deleted_at_unix == b.deleted_at_unix
            &&& deleted matches Ok((was, now)) && same_user(Some(was), shown) && now.body@ == b.body@
                && same_user_fields(now.index, b.index) && now.deleted && now.deleted_at_unix == at
        },
{
}

/// A user that is not there can be neither updated nor deleted; the answer says which it is, and
/// nothing changes.
pub proof fn a_missing_user_stays_missing(
    s: &mut Storage,
    t: &mut Storage,
    uuid: &str,
    body: &[u8],
    index: UserIndexFields,
    at: i64,
    updated: Result<(), StorageError>,
    deleted: Result<(), StorageError>,
)
    requires
        gets_user(*old(s), uuid, None),
        gets_user(*old(t), uuid, None),
        call_ensures(Storage::update_user, (s, uuid, body, &index), updated),
        call_ensures(Storage::soft_delete_user, (t, uuid, at), deleted),
    ensures
        updated is Err && deleted is Err,
        updated matches Err(StorageError::NotFound(text)) ==> text@ == "user "@ + uuid@
            + " not found"@ && final(s)@ == old(s)@,
        deleted matches Err(StorageError::NotFound(text)) ==> text@ == "user "@ + uuid@
            + " not found"@ && final(t)@ == old(t)@,
        !(updated matches Err(StorageError::Corrupt(_))),
        !(deleted matches Err(StorageError::Corrupt(_))),
{
}

// ---- Rows and indexes ----

/// A ticket is entered in the index of each of its fields, under the field's value; where it has no
/// assignee, or nothing to track it by, it is not entered there.
pub proof fn a_ticket_is_entered_by_its_fields(
    index: TicketIndexFields,
    out: Vec<(&'static str, Vec<u8>)>,
    created: Vec<u8>,
)
    requires
        call_ensures(ticket_index_entries, (&index,), out),
        index.created_at_unix >= 0 && index.updated_at_unix >= 0,
        call_ensures(crate::bytes::to_be8, (index.created_at_unix as u64,), created),
    ensures
        out@.len() == 5 + (if index.assigned_to_uuid is Some {
            1int
        } else {
            0
        }) + (if index.tracking_url is Some {
            1int
        } else {
            0
        }),
        out@[0].0@ == "idx_ticket_status"@ && out@[0].1@ == seq![index.status],
        out@[1].0@ == "idx_ticket_account"@ && out@[1].1@ == encode_utf8(index.account_uuid@),
        out@[2].0@ == "idx_ticket_project"@ && out@[2].1@ == encode_utf8(index.project@),
        out@[3].0@ == "idx_ticket_created"@ && out@[3].1@ == created@,
        out@[4].0@ == "idx_ticket_updated"@,
        index.assigned_to_uuid matches Some(user) ==> out@[5].0@ == "idx_ticket_assignee"@
            && out@[5].1@ == encode_utf8(user@),
        index.tracking_url matches Some(url) ==> out@.last().0@ == "idx_ticket_tracking"@
            && out@.last().1@ == encode_utf8(url@),
{
    let all = crate::db::rows::values_of(out@);
    assert(all.len() == out@.len());
    assert(all[0] == (out@[0].0@, out@[0].1@));
    assert(all[1] == (out@[1].0@, out@[1].1@));
    assert(all[2] == (out@[2].0@, out@[2].1@));
    assert(all[3] == (out@[3].0@, out@[3].1@));
    assert(all[4] == (out@[4].0@, out@[4].1@));
    assert(all.last() == (out@.last().0@, out@.last().1@));
    if index.assigned_to_uuid is Some {
        assert(all[5] == (out@[5].0@, out@[5].1@));
    }
}

/// A user is entered in the index of each of its fields, under the field's value.
pub proof fn a_user_is_entered_by_its_fields(
    index: UserIndexFields,
    out: Vec<(&'static str, Vec<u8>)>,
)
    requires
        call_ensures(user_index_entries, (&index,), out),
    ensures
        out@.len() == 3,
        out@[0].0@ == "idx_user_name"@ && out@[0].1@ == encode_utf8(index.username@),
        out@[1].0@ == "idx_user_email"@ && out@[1].1@ == encode_utf8(index.email@),
        out@[2].0@ == "idx_user_role"@ && out@[2].1@ == seq![index.role],
{
    let all = crate::db::rows::values_of(out@);
    assert(all.len() == out@.len());
    assert(all[0] == (out@[0].0@, out@[0].1@));
    assert(all[1] == (out@[1].0@, out@[1].1@));
    assert(all[2] == (out@[2].0@, out@[2].1@));
}

/// An index of users lists the live ones that have the value in its field, and nobody else.
pub proof fn an_index_lists_users_by_its_field(
    s: Storage,
    tree: &str,
    value: &[u8],
    ids: Vec<String>,
    uuid: &str,
    live: Option<StoredUser>,
)
    requires
        users_consistent(s@),
        tree@ == "idx_user_name"@ ==> is_unmistakable(s@, 0, value@),
        tree@ == "idx_user_email"@ ==> is_unmistakable(s@, 1, value@),
        tree@ == "idx_user_role"@ ==> is_unmistakable(s@, 2, value@),
        call_ensures(
            Storage::scan_index_ids_str,
            (&s, tree, value),
            Ok::<Vec<String>, StorageError>(ids),
        ),
        call_ensures(
            Storage::get_user,
            (&s, uuid, false),
            Ok::<Option<StoredUser>, StorageError>(live),
        ),
    ensures
        tree@ == "idx_user_name"@ ==> (texts_of(ids@).contains(uuid@) <==> (live matches Some(u)
            && value@ == encode_utf8(u.index.username@))),
        tree@ == "idx_user_email"@ ==> (texts_of(ids@).contains(uuid@) <==> (live matches Some(u)
            && value@ == encode_utf8(u.index.email@))),
        tree@ == "idx_user_role"@ ==> (texts_of(ids@).contains(uuid@) <==> (live matches Some(u)
            && value@ == seq![u.index.role])),
{
    let all = texts_of(ids@);
    if live is Some {
        let values = crate::db::rows::user_index_values(live->0@.index);
        assert(values[0].1 == encode_utf8(live->0.index.username@));
        assert(values[1].1 == encode_utf8(live->0.index.email@));
        assert(values[2].1 == seq![live->0.index.role]);
    }
    if tree@ == "idx_user_name"@ {
        assert(tree@ == crate::db::user_consistency::user_tree(0));
        assert(crate::db::user_consistency::are_users_with(s@, 0, value@, all));
        assert(all.contains(uuid@) <==> crate::db::user_consistency::is_live_with(
            s@,
            uuid@,
            0,
            value@,
        ));
    }
    if tree@ == "idx_user_email"@ {
        assert(tree@ == crate::db::user_consistency::user_tree(1));
        assert(crate::db::user_consistency::are_users_with(s@, 1, value@, all));
        assert(all.contains(uuid@) <==> crate::db::user_consistency::is_live_with(
            s@,
            uuid@,
            1,
            value@,
        ));
    }
    if tree@ == "idx_user_role"@ {
        assert(tree@ == crate::db::user_consistency::user_tree(2));
        assert(crate::db::user_consistency::are_users_with(s@, 2, value@, all));
        assert(all.contains(uuid@) <==> crate::db::user_consistency::is_live_with(
            s@,
            uuid@,
            2,
            value@,
        ));
    }
}

/// A row is read as it is shown, deleted or not.
pub proof fn a_row_is_read_as_it_is_shown(
    row: Option<Vec<u8>>,
    other: Option<Vec<u8>>,
    t: Result<Option<StoredTicket>, StorageError>,
    shown: Result<Option<StoredTicket>, StorageError>,
    u: Result<Option<StoredUser>, StorageError>,
    user: Result<Option<StoredUser>, StorageError>,
)
    requires
        call_ensures(read_ticket, (row,), t),
        call_ensures(shown_ticket, (row, true), shown),
        call_ensures(read_user, (other,), u),
        call_ensures(shown_user, (other, true), user),
    ensures
        t is Ok <==> shown is Ok,
        t is Ok ==> same_ticket(t->Ok_0, shown->Ok_0),
        u is Ok <==> user is Ok,
        u is Ok ==> same_user(u->Ok_0, user->Ok_0),
        row is None ==> (t matches Ok(None)),
        other is None ==> (u matches Ok(None)),
{
}

/// Copies of index fields say the same, and a failure says its words.
pub proof fn copies_of_fields_say_the_same(
    a: TicketIndexFields,
    b: UserIndexFields,
    x: TicketIndexFields,
    y: UserIndexFields,
    text: String,
    p: String,
    q: String,
    r: String,
)
    requires
        call_ensures(TicketIndexFields::copy, (&a,), x),
        call_ensures(UserIndexFields::copy, (&b,), y),
        call_ensures(StorageError::message, (&StorageError::NotFound(text),), p),
        call_ensures(StorageError::message, (&StorageError::Corrupt(text),), q),
        call_ensures(StorageError::message, (&StorageError::Backend(text),), r),
    ensures
        same_ticket_fields(a, x),
        same_user_fields(b, y),
        p@ == text@ && q@ == text@ && r@ == text@,
{
}

/// Listing from a key on gives the pairs whose keys do not come before it, and listing through a key
/// those whose keys do not come after it, all of them and in order.
pub proof fn listings_begin_and_end_at_a_key(
    s: Storage,
    tree: &str,
    bound: &[u8],
    from: Vec<(Vec<u8>, Vec<u8>)>,
    through: Vec<(Vec<u8>, Vec<u8>)>,
    key: &[u8],
    value: Option<Vec<u8>>,
    i: int,
    first: bool,
    last: bool,
)
    requires
        call_ensures(
            Storage::list_from,
            (&s, tree, bound),
            Ok::<Vec<(Vec<u8>, Vec<u8>)>, StorageError>(from),
        ),
        call_ensures(
            Storage::list_through,
            (&s, tree, bound),
            Ok::<Vec<(Vec<u8>, Vec<u8>)>, StorageError>(through),
        ),
        gets(s, tree, key, value),
        call_ensures(crate::bytes::before, (key, bound), first),
        call_ensures(crate::bytes::before, (bound, key), last),
    ensures
        (exists|k: int| 0 <= k < from@.len() && (#[trigger] from@[k]).0@ == key@) <==> value is Some
            && !first,
        (exists|k: int| 0 <= k < through@.len() && (#[trigger] through@[k]).0@ == key@) <==> value
            is Some && !last,
        0 <= i < from@.len() && from@[i].0@ == key@ ==> blob_of(value) == Some(from@[i].1@),
        0 <= i < through@.len() && through@[i].0@ == key@ ==> blob_of(value) == Some(
            through@[i].1@,
        ),
{
    let (a, b) = (pairs_of(from@), pairs_of(through@));
    assert(a.len() == from@.len() && b.len() == through@.len());
    let (keep, also) = (not_before(bound@), not_after(bound@));
    if 0 <= i < from@.len() {
        assert(a[i] == (from@[i].0@, from@[i].1@));
        assert(keep(a[i].0));
    }
    if 0 <= i < through@.len() {
        assert(b[i] == (through@[i].0@, through@[i].1@));
        assert(also(b[i].0));
    }
    if exists|k: int| 0 <= k < from@.len() && (#[trigger] from@[k]).0@ == key@ {
        let k = choose|k: int| 0 <= k < from@.len() && (#[trigger] from@[k]).0@ == key@;
        assert(keep(a[k].0));
    }
    if exists|k: int| 0 <= k < through@.len() && (#[trigger] through@[k]).0@ == key@ {
        let k = choose|k: int| 0 <= k < through@.len() && (#[trigger] through@[k]).0@ == key@;
        assert(also(b[k].0));
    }
    if value is Some {
        assert(s@.dom().contains((tree@, key@)));
        if !first {
            assert(keep(key@));
            let k = choose|k: int| 0 <= k < a.len() && (#[trigger] a[k]).0 == key@;
            assert(from@[k].0@ == key@);
        }
        if !last {
            assert(also(key@));
            let k = choose|k: int| 0 <= k < b.len() && (#[trigger] b[k]).0 == key@;
            assert(through@[k].0@ == key@);
        }
    }
}

/// The numbers of all tickets are those that a ticket is kept under, deleted or not.
pub proof fn every_ticket_is_numbered(s: Storage, ids: Vec<u64>, id: u64, tree: &str, key: &[u8], row: Option<Vec<u8>>)
    requires
        call_ensures(Storage::all_ticket_ids, (&s,), Ok::<Vec<u64>, StorageError>(ids)),
        tree@ == "tickets"@,
        key@ == be8(id),
        gets(s, tree, key, row),
    ensures
        ids@.contains(id) <==> row is Some,
{
    let list = choose|list: Seq<(Seq<u8>, Seq<u8>)>|
        crate::store::is_listing(
            s@,
            crate::db::storage::TREE_TICKETS@,
            crate::store::any_key(),
            list,
        ) && ids@ == #[trigger] crate::db::storage::key_ids(list);
    ids_are_of_keys(list, id);
    if row is Some {
        assert(s@.dom().contains((tree@, key@)));
        assert(crate::store::any_key()(key@));
        let k = choose|k: int| 0 <= k < list.len() && (#[trigger] list[k]).0 == key@;
        assert(list[k].0 == be8(id));
    }
    if ids@.contains(id) {
        let k = choose|k: int| 0 <= k < list.len() && (#[trigger] list[k]).0 == be8(id);
        assert(crate::store::any_key()(list[k].0));
        assert(s@.contains_pair((tree@, list[k].0), list[k].1));
    }
}

proof fn ids_are_of_keys(list: Seq<(Seq<u8>, Seq<u8>)>, id: u64)
    ensures
        crate::db::storage::key_ids(list).contains(id) <==> exists|k: int|
            0 <= k < list.len() && (#[trigger] list[k]).0 == be8(id),
    decreases list.len(),
{
    let all = crate::db::storage::key_ids(list);
    if list.len() > 0 {
        let rest = list.drop_last();
        let few = crate::db::storage::key_ids(rest);
        ids_are_of_keys(rest, id);
        be8_round_trip(id);
        let last = list[list.len() - 1].0;
        if last.len() == 8 {
            crate::bytes::from_be8_round_trip(last);
        }
        if few.contains(id) {
            let k = choose|k: int| 0 <= k < rest.len() && (#[trigger] rest[k]).0 == be8(id);
            assert(list[k].0 == be8(id));
            let j = choose|j: int| 0 <= j < few.len() && few[j] == id;
            assert(all[j] == id);
        }
        if exists|k: int| 0 <= k < list.len() && (#[trigger] list[k]).0 == be8(id) {
            let k = choose|k: int| 0 <= k < list.len() && (#[trigger] list[k]).0 == be8(id);
            if k < rest.len() {
                assert(rest[k].0 == be8(id));
            } else {
                assert(all[all.len() - 1] == id);
            }
        }
        if all.contains(id) && !few.contains(id) {
            let j = choose|j: int| 0 <= j < all.len() && all[j] == id;
            if j < few.len() {
                assert(few[j] == id);
            }
            assert(last == be8(id));
        }
    }
}

/// The names of the data collections are those of the collections with something in them, but for
/// the log's own and the default one.
pub proof fn data_collections_are_named(
    s: Storage,
    out: Vec<String>,
    tree: &str,
    key: &[u8],
    value: Option<Vec<u8>>,
    i: int,
)
    requires
        call_ensures(Storage::data_tree_names, (&s,), out),
        gets(s, tree, key, value),
    ensures
        value is Some && tree@ != "raft_metadata"@ && tree@ != "raft_state"@ && tree@ != "raft_log"@
            && tree@ != "__sled__default"@ ==> texts_of(out@).contains(tree@),
        0 <= i < out@.len() ==> out@[i]@ != "raft_metadata"@ && out@[i]@ != "raft_state"@
            && out@[i]@ != "raft_log"@ && out@[i]@ != "__sled__default"@,
{
    let data = texts_of(out@);
    let names = choose|names: Seq<Seq<u8>>|
        crate::db::storage::are_data_names(s@, names, data)
            && #[trigger] crate::db::storage::data_names_of(names) == data;
    if 0 <= i < out@.len() {
        assert(data[i] == out@[i]@);
        crate::laws::log::data_is_not_of_raft(data[i]);
    }
    if value is Some && tree@ != "raft_metadata"@ && tree@ != "raft_state"@ && tree@ != "raft_log"@
        && tree@ != "__sled__default"@ {
        crate::laws::log::data_is_not_of_raft(tree@);
        let n = encode_utf8(tree@);
        assert(s@.contains_key((tree@, key@)));
        assert(names.contains(n));
        vstd::utf8::encode_utf8_valid_utf8(tree@);
        vstd::utf8::encode_utf8_decode_utf8(tree@);
        assert(crate::db::storage::utf8_lossy(n) == tree@);
        named_data_is_there(names, n);
    }
}

proof fn named_data_is_there(names: Seq<Seq<u8>>, n: Seq<u8>)
    requires
        names.contains(n),
        crate::db::storage::is_data_tree(n),
    ensures
        crate::db::storage::data_names_of(names).contains(crate::db::storage::utf8_lossy(n)),
    decreases names.len(),
{
    let all = crate::db::storage::data_names_of(names);
    let text = crate::db::storage::utf8_lossy(n);
    if names.len() > 0 {
        let rest = names.drop_last();
        if names.last() == n {
            assert(all[all.len() - 1] == text);
        } else {
            let k = choose|k: int| 0 <= k < names.len() && names[k] == n;
            assert(rest[k] == n);
            named_data_is_there(rest, n);
            let few = crate::db::storage::data_names_of(rest);
            let j = choose|j: int| 0 <= j < few.len() && few[j] == text;
            assert(all[j] == text);
        }
    }
}

// ---- What every operation keeps ----

/// Rows and indexes of tickets agree at first, and every operation on tickets keeps it so.
pub proof fn tickets_and_their_indexes_agree(
    new: Storage,
    a: &mut Storage,
    b: &mut Storage,
    c: &mut Storage,
    body: &[u8],
    index: TicketIndexFields,
    id: u64,
    other: u64,
    at: i64,
)
    requires
        call_ensures(Storage::new_temp, (), Ok::<Storage, StorageError>(new)),
        tickets_consistent(old(a)@) && ids_below_counter(old(a)@),
        *old(b) == *old(a) && *old(c) == *old(a),
        call_ensures(Storage::create_ticket, (a, body, &index), Ok::<u64, StorageError>(id)),
        call_ensures(Storage::update_ticket, (b, other, body, &index), Ok::<(), StorageError>(())),
        call_ensures(Storage::soft_delete_ticket, (c, other, at), Ok::<(), StorageError>(())),
    ensures
        tickets_consistent(new@) && ids_below_counter(new@),
        tickets_consistent(final(a)@),
        id < u64::MAX ==> ids_below_counter(final(a)@),
        tickets_consistent(final(b)@),
        tickets_consistent(final(c)@),
{
    crate::db::consistency::empty_is_consistent(new@);
}

/// Rows and indexes of users agree at first, and every operation on users keeps it so.
pub proof fn users_and_their_indexes_agree(
    new: Storage,
    a: &mut Storage,
    b: &mut Storage,
    c: &mut Storage,
    uuid: &str,
    body: &[u8],
    index: UserIndexFields,
    other: &str,
    at: i64,
)
    requires
        call_ensures(Storage::new_temp, (), Ok::<Storage, StorageError>(new)),
        users_consistent(old(a)@),
        is_plain(uuid@),
        gets_user(*old(a), uuid, None),
        *old(b) == *old(a) && *old(c) == *old(a),
        call_ensures(Storage::create_user, (a, uuid, body, &index), Ok::<(), StorageError>(())),
        call_ensures(Storage::update_user, (b, other, body, &index), Ok::<(), StorageError>(())),
        call_ensures(Storage::soft_delete_user, (c, other, at), Ok::<(), StorageError>(())),
    ensures
        users_consistent(new@),
        users_consistent(final(a)@),
        users_consistent(final(b)@),
        users_consistent(final(c)@),
{
    crate::db::user_consistency::empty_users_are_consistent(new@);
}

/// A user is got as its row reads; a row that cannot be read gives a failure and no user.
pub proof fn users_are_got_from_their_rows(
    s: Storage,
    uuid: &str,
    tree: &str,
    key: &[u8],
    row: Option<Vec<u8>>,
    read: Result<Option<StoredUser>, StorageError>,
    got: Result<Option<StoredUser>, StorageError>,
)
    requires
        tree@ == "users"@,
        key@ == encode_utf8(uuid@),
        gets(s, tree, key, row),
        call_ensures(read_user, (row,), read),
        call_ensures(Storage::get_user, (&s, uuid, true), got),
    ensures
        got matches Ok(u) ==> (read matches Ok(r) && same_user(u, r)),
        got matches Err(StorageError::Corrupt(_)) ==> read is Err,
        !(got matches Err(StorageError::NotFound(_))),
{
}

/// A ticket is got as its row reads; a row that cannot be read gives a failure and no ticket.
pub proof fn tickets_are_got_from_their_rows(
    s: Storage,
    id: u64,
    tree: &str,
    key: &[u8],
    row: Option<Vec<u8>>,
    read: Result<Option<StoredTicket>, StorageError>,
    got: Result<Option<StoredTicket>, StorageError>,
)
    requires
        tree@ == "tickets"@,
        key@ == be8(id),
        gets(s, tree, key, row),
        call_ensures(read_ticket, (row,), read),
        call_ensures(Storage::get_ticket, (&s, id, true), got),
    ensures
        got matches Ok(t) ==> (read matches Ok(r) && same_ticket(t, r)),
        got matches Err(StorageError::Corrupt(_)) ==> read is Err,
        !(got matches Err(StorageError::NotFound(_))),
{
}

/// Tickets, users and counters are kept apart: work on tickets leaves every user as it is, and work
/// on users every ticket.
pub proof fn tickets_and_users_are_kept_apart(
    a: &mut Storage,
    b: &mut Storage,
    body: &[u8],
    index: TicketIndexFields,
    id: u64,
    fields: UserIndexFields,
    uuid: &str,
    someone: &str,
    user: Option<StoredUser>,
    same: Option<StoredUser>,
    number: u64,
    ticket: Option<StoredTicket>,
    unchanged: Option<StoredTicket>,
)
    requires
        *old(b) == *old(a),
        call_ensures(Storage::create_ticket, (a, body, &index), Ok::<u64, StorageError>(id)),
        call_ensures(Storage::create_user, (b, uuid, body, &fields), Ok::<(), StorageError>(())),
        gets_user(*old(a), someone, user),
        gets_user(*final(a), someone, same),
        gets_ticket(*old(b), number, ticket),
        gets_ticket(*final(b), number, unchanged),
    ensures
        same_user(user, same),
        same_ticket(ticket, unchanged),
{
    row_trees_apart();
    crate::db::rows::index_names_apart();
    let at = crate::db::storage::user_at(someone@);
    if crate::db::storage::is_entry(crate::db::rows::ticket_index_values(index@), be8(id), at) {
        ticket_entries_in_indexes(index@, be8(id), at);
    }
    let d = encode_utf8(uuid@);
    let there = crate::db::storage::ticket_at(number);
    if crate::db::storage::is_entry(crate::db::rows::user_index_values(fields@), d, there) {
        user_entries_in_indexes(fields@, d, there);
    }
}

} // verus!
