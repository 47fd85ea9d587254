//! Storage with namespaced collections, secondary indexes and sequence counters.
//!
//! Tickets and users are kept as an opaque, encrypted `body` beside a few plaintext index fields.
//! The body is never read here: index maintenance and queries go by the plaintext fields alone.

use vstd::prelude::*;
use vstd::string::*;
use vstd::utf8::{decode_utf8, decode_utf8_encode_utf8, encode_utf8, valid_utf8};

use crate::bytes::{be8, be8_round_trip, counter_after, from_be8, read_be8, same_bytes, to_be8};
use crate::db::rows::{
    ticket_index_entries, ticket_index_values, ticket_of_record, ticket_record_round_trip,
    ticket_record_view, user_index_entries, user_index_values, user_of_record,
    user_record_round_trip, user_record_view, values_of, StoredTicket, StoredUser,
    TicketIndexFields, TicketIndexView, TicketView, UserIndexFields, UserIndexView, UserView,
    IDX_TICKET_ACCOUNT, IDX_TICKET_ASSIGNEE, IDX_TICKET_PROJECT, IDX_TICKET_STATUS,
};
use crate::record::{json_error_text, read_record, record_json, record_of, write_record};
use crate::store;
use crate::store::{
    after_writes, any_key, batch_writes, holds_nothing, is_listing, not_after, not_before, pairs_of,
    starting_with,
};
use crate::text::{blob_of, copy_bytes, decimal, utf8_injective};

verus! {

pub const TREE_RAFT_METADATA: &'static str = "raft_metadata";

pub const TREE_RAFT_STATE: &'static str = "raft_state";

pub const TREE_RAFT_LOG: &'static str = "raft_log";

pub const TREE_TICKETS: &'static str = "tickets";

pub const TREE_USERS: &'static str = "users";

pub const TREE_SESSIONS: &'static str = "sessions";

pub const TREE_AUDIT: &'static str = "audit";

/// Sequence counters: monotonic ids, one per name.
pub const TREE_SEQ: &'static str = "seq";

/// The name of the ticket counter.
pub const SEQ_TICKET: &'static str = "ticket";

/// The collection that every database has of its own.
pub const TREE_DEFAULT: &'static str = "__sled__default";

/// What storage holds: a value for each pair of a collection's name and a key.
pub type Held = Map<(Seq<char>, Seq<u8>), Seq<u8>>;

/// Why an operation on storage failed.
#[derive(Debug)]
pub enum StorageError {
    /// There is no such row.
    NotFound(String),
    /// A stored value is not what it should be.
    Corrupt(String),
    /// The database failed.
    Backend(String),
}

/// What went wrong, in words.
pub open spec fn failure_text(e: StorageError) -> Seq<char> {
    match e {
        StorageError::NotFound(text) => text@,
        StorageError::Corrupt(text) => text@,
        StorageError::Backend(text) => text@,
    }
}

impl StorageError {
    /// What went wrong, in words.
    pub fn message(&self) -> (out: String)
        ensures
            out@ == failure_text(*self),
    {
        match self {
            StorageError::NotFound(text) => text.clone(),
            StorageError::Corrupt(text) => text.clone(),
            StorageError::Backend(text) => text.clone(),
        }
    }
}

pub(crate) fn backend(error: sled::Error) -> (out: StorageError)
    ensures
        out is Backend,
{
    StorageError::Backend(store::error_text(&error))
}

/// What a look into storage finds.
pub enum Lookup<T> {
    Missing,
    Corrupt,
    Found(T),
}

/// Filter for [`Storage::query_tickets`]. Set fields are combined with AND; `None` means any.
#[derive(Debug, Clone)]
pub struct TicketQuery {
    pub status: Option<u8>,
    pub assigned_to_uuid: Option<String>,
    pub account_uuid: Option<String>,
    pub project: Option<String>,
    pub include_deleted: bool,
    /// Maximum results; `0` means unlimited.
    pub limit: usize,
}

impl Default for TicketQuery {
    fn default() -> (out: Self)
        ensures
            out.status is None,
            out.assigned_to_uuid is None,
            out.account_uuid is None,
            out.project is None,
            !out.include_deleted,
            out.limit == 0,
    {
        TicketQuery {
            status: None,
            assigned_to_uuid: None,
            account_uuid: None,
            project: None,
            include_deleted: false,
            limit: 0,
        }
    }
}

// ---- Index keys ----

/// The key of an index entry: the indexed value, a zero byte, and the entity's key.
pub open spec fn index_key_of(value: Seq<u8>, entity: Seq<u8>) -> Seq<u8> {
    value + seq![0u8] + entity
}

/// What the keys of all entries for `value` begin with.
pub open spec fn index_prefix_of(value: Seq<u8>) -> Seq<u8> {
    value + seq![0u8]
}

/// `at` is where one of the index entries of `entity` stands.
pub open spec fn is_entry(
    values: Seq<(Seq<char>, Seq<u8>)>,
    entity: Seq<u8>,
    at: (Seq<char>, Seq<u8>),
) -> bool {
    exists|i: int|
        0 <= i < values.len() && at == ((#[trigger] values[i]).0, index_key_of(values[i].1, entity))
}

/// Storage with the index entries of `entity` written.
pub open spec fn index_written(
    held: Held,
    values: Seq<(Seq<char>, Seq<u8>)>,
    entity: Seq<u8>,
) -> Held {
    Map::new(
        |at: (Seq<char>, Seq<u8>)| held.contains_key(at) || is_entry(values, entity, at),
        |at: (Seq<char>, Seq<u8>)|
            if is_entry(values, entity, at) {
                entity
            } else {
                held[at]
            },
    )
}

/// Storage with the index entries of `entity` removed.
pub open spec fn index_erased(
    held: Held,
    values: Seq<(Seq<char>, Seq<u8>)>,
    entity: Seq<u8>,
) -> Held {
    Map::new(
        |at: (Seq<char>, Seq<u8>)| held.contains_key(at) && !is_entry(values, entity, at),
        |at: (Seq<char>, Seq<u8>)| held[at],
    )
}

// ---- Rows ----

/// Where the row of a ticket stands.
pub open spec fn ticket_at(id: u64) -> (Seq<char>, Seq<u8>) {
    (TREE_TICKETS@, be8(id))
}

/// Where the row of a user stands.
pub open spec fn user_at(user_uuid: Seq<char>) -> (Seq<char>, Seq<u8>) {
    (TREE_USERS@, encode_utf8(user_uuid))
}

/// Where a sequence counter stands.
pub open spec fn counter_at(name: Seq<u8>) -> (Seq<char>, Seq<u8>) {
    (TREE_SEQ@, name)
}

/// The stored bytes of a ticket's row.
pub open spec fn ticket_bytes(t: TicketView) -> Seq<u8> {
    record_json(ticket_record_view(t))
}

/// The stored bytes of a user's row.
pub open spec fn user_bytes(u: UserView) -> Seq<u8> {
    record_json(user_record_view(u))
}

/// The ticket that a row's bytes hold.
pub open spec fn ticket_in(bytes: Seq<u8>) -> Option<TicketView> {
    match record_of(bytes) {
        Some(record) => ticket_of_record(record),
        None => None,
    }
}

/// The user that a row's bytes hold.
pub open spec fn user_in(bytes: Seq<u8>) -> Option<UserView> {
    match record_of(bytes) {
        Some(record) => user_of_record(record),
        None => None,
    }
}

/// What a row of a ticket holds, where there is one.
pub open spec fn ticket_in_row(row: Option<Seq<u8>>) -> Lookup<TicketView> {
    match row {
        None => Lookup::Missing,
        Some(bytes) => match ticket_in(bytes) {
            Some(t) => Lookup::Found(t),
            None => Lookup::Corrupt,
        },
    }
}

/// What a row of a user holds, where there is one.
pub open spec fn user_in_row(row: Option<Seq<u8>>) -> Lookup<UserView> {
    match row {
        None => Lookup::Missing,
        Some(bytes) => match user_in(bytes) {
            Some(u) => Lookup::Found(u),
            None => Lookup::Corrupt,
        },
    }
}

/// The ticket under `id`, deleted or not.
pub open spec fn lookup_ticket(held: Held, id: u64) -> Lookup<TicketView> {
    if held.contains_key(ticket_at(id)) {
        match ticket_in(held[ticket_at(id)]) {
            Some(t) => Lookup::Found(t),
            None => Lookup::Corrupt,
        }
    } else {
        Lookup::Missing
    }
}

/// The user under `user_uuid`, deleted or not.
pub open spec fn lookup_user(held: Held, user_uuid: Seq<char>) -> Lookup<UserView> {
    if held.contains_key(user_at(user_uuid)) {
        match user_in(held[user_at(user_uuid)]) {
            Some(u) => Lookup::Found(u),
            None => Lookup::Corrupt,
        }
    } else {
        Lookup::Missing
    }
}

/// The id that the next ticket gets.
pub open spec fn next_counter_value(held: Held, name: Seq<u8>) -> u64 {
    counter_after(
        if held.contains_key(counter_at(name)) {
            Some(held[counter_at(name)])
        } else {
            None
        },
    )
}

/// A ticket as it is stored first.
pub open spec fn new_ticket(body: Seq<u8>, index: TicketIndexView) -> TicketView {
    TicketView { body, index, deleted: false, deleted_at_unix: 0 }
}

/// A user as it is stored first.
pub open spec fn new_user(body: Seq<u8>, index: UserIndexView) -> UserView {
    UserView { body, index, deleted: false, deleted_at_unix: 0 }
}

/// Storage after the row of ticket `id` went from `before` to `after`: the entries of a live row
/// are taken out of the indexes, the row is written, and a live row is entered again.
pub open spec fn ticket_rewritten(held: Held, id: u64, before: TicketView, after: TicketView) -> Held {
    let cleared = if before.deleted {
        held
    } else {
        index_erased(held, ticket_index_values(before.index), be8(id))
    };
    let written = cleared.insert(ticket_at(id), ticket_bytes(after));
    if after.deleted {
        written
    } else {
        index_written(written, ticket_index_values(after.index), be8(id))
    }
}

/// Storage after ticket `id` was created.
pub open spec fn ticket_created(held: Held, body: Seq<u8>, index: TicketIndexView) -> Held {
    let name = encode_utf8(SEQ_TICKET@);
    let id = next_counter_value(held, name);
    index_written(
        held.insert(counter_at(name), be8(id)).insert(
            ticket_at(id),
            ticket_bytes(new_ticket(body, index)),
        ),
        ticket_index_values(index),
        be8(id),
    )
}

/// Storage after the row of a user went from `before` to `after`.
pub open spec fn user_rewritten(
    held: Held,
    user_uuid: Seq<char>,
    before: UserView,
    after: UserView,
) -> Held {
    let entity = encode_utf8(user_uuid);
    let cleared = if before.deleted {
        held
    } else {
        index_erased(held, user_index_values(before.index), entity)
    };
    let written = cleared.insert(user_at(user_uuid), user_bytes(after));
    if after.deleted {
        written
    } else {
        index_written(written, user_index_values(after.index), entity)
    }
}

/// Storage after a user was created.
pub open spec fn user_created(
    held: Held,
    user_uuid: Seq<char>,
    body: Seq<u8>,
    index: UserIndexView,
) -> Held {
    index_written(
        held.insert(user_at(user_uuid), user_bytes(new_user(body, index))),
        user_index_values(index),
        encode_utf8(user_uuid),
    )
}

// ---- Queries ----

/// The tickets whose ids are eight bytes long among the keys of a listing.
pub open spec fn key_ids(list: Seq<(Seq<u8>, Seq<u8>)>) -> Seq<u64>
    decreases list.len(),
{
    if list.len() == 0 {
        Seq::empty()
    } else {
        let rest = key_ids(list.drop_last());
        if list.last().0.len() == 8 {
            rest.push(from_be8(list.last().0))
        } else {
            rest
        }
    }
}

/// The tickets whose ids are eight bytes long among the values of a listing.
pub open spec fn value_ids(list: Seq<(Seq<u8>, Seq<u8>)>) -> Seq<u64>
    decreases list.len(),
{
    if list.len() == 0 {
        Seq::empty()
    } else {
        let rest = value_ids(list.drop_last());
        if list.last().1.len() == 8 {
            rest.push(from_be8(list.last().1))
        } else {
            rest
        }
    }
}

/// The ticket meets every field that the query sets.
pub open spec fn query_matches(query: TicketQuery, t: TicketView) -> bool {
    &&& query.status matches Some(status) ==> t.index.status == status
    &&& query.assigned_to_uuid matches Some(assignee) ==> t.index.assigned_to_uuid == Some(assignee@)
    &&& query.account_uuid matches Some(account) ==> t.index.account_uuid == account@
    &&& query.project matches Some(project) ==> t.index.project == project@
}

/// The index that a query goes by and the value it looks up there: the first that it sets of
/// status, assignee, account and project. `None` where it goes over all tickets.
pub open spec fn query_index(query: TicketQuery) -> Option<(Seq<char>, Seq<u8>)> {
    if query.include_deleted {
        None
    } else if query.status is Some {
        Some((IDX_TICKET_STATUS@, seq![query.status->0]))
    } else if query.assigned_to_uuid is Some {
        Some((IDX_TICKET_ASSIGNEE@, encode_utf8((query.assigned_to_uuid->0)@)))
    } else if query.account_uuid is Some {
        Some((IDX_TICKET_ACCOUNT@, encode_utf8((query.account_uuid->0)@)))
    } else if query.project is Some {
        Some((IDX_TICKET_PROJECT@, encode_utf8((query.project->0)@)))
    } else {
        None
    }
}

/// `ids` are the tickets that a query looks at, in the order in which it does.
pub open spec fn are_candidates(held: Held, query: TicketQuery, ids: Seq<u64>) -> bool {
    match query_index(query) {
        Some((tree, value)) => exists|list: Seq<(Seq<u8>, Seq<u8>)>|
            is_listing(held, tree, starting_with(index_prefix_of(value)), list) && ids == #[trigger] value_ids(list),
        None => exists|list: Seq<(Seq<u8>, Seq<u8>)>|
            is_listing(held, TREE_TICKETS@, any_key(), list) && ids
                == #[trigger] key_ids(list),
    }
}

/// The query's limit is reached.
pub open spec fn is_full(query: TicketQuery, count: nat) -> bool {
    query.limit > 0 && count >= query.limit
}

/// What a query gives after the first `n` of its candidates; `None` where it met a corrupt row.
pub open spec fn answer(held: Held, query: TicketQuery, ids: Seq<u64>, n: nat) -> Option<
    Seq<(u64, TicketView)>,
>
    decreases n,
{
    if n == 0 {
        Some(Seq::empty())
    } else {
        match answer(held, query, ids, (n - 1) as nat) {
            None => None,
            Some(found) => if is_full(query, found.len()) {
                Some(found)
            } else {
                match lookup_ticket(held, ids[n - 1]) {
                    Lookup::Missing => Some(found),
                    Lookup::Corrupt => None,
                    Lookup::Found(t) => if (t.deleted && !query.include_deleted) || !query_matches(
                        query,
                        t,
                    ) {
                        Some(found)
                    } else {
                        Some(found.push((ids[n - 1], t)))
                    },
                }
            },
        }
    }
}

/// The views of a list of tickets with their ids.
pub open spec fn tickets_of(v: Seq<(u64, StoredTicket)>) -> Seq<(u64, TicketView)> {
    Seq::new(v.len(), |i: int| (v[i].0, v[i].1@))
}

// ---- Collections ----

/// The text that `String::from_utf8_lossy` gives for bytes.
pub uninterp spec fn utf8_lossy(bytes: Seq<u8>) -> Seq<char>;

/// Calls `String::from_utf8_lossy`, which keeps valid UTF-8 as it is and puts the replacement
/// character where bytes are not UTF-8.
#[verifier::external_body]
pub(crate) fn lossy_text(bytes: &[u8]) -> (out: String)
    ensures
        out@ == utf8_lossy(bytes@),
        valid_utf8(bytes@) ==> out@ == decode_utf8(bytes@),
        !valid_utf8(bytes@) ==> out@.contains('\u{fffd}'),
{
    String::from_utf8_lossy(bytes).into_owned()
}

/// The collection belongs to the replicated state: it is neither one of Raft's own nor the default.
pub open spec fn is_data_tree(name: Seq<u8>) -> bool {
    &&& name != encode_utf8(TREE_RAFT_METADATA@)
    &&& name != encode_utf8(TREE_RAFT_STATE@)
    &&& name != encode_utf8(TREE_RAFT_LOG@)
    &&& name != encode_utf8(TREE_DEFAULT@)
}

/// The names of the data collections among `names`, in the same order.
pub open spec fn data_names_of(names: Seq<Seq<u8>>) -> Seq<Seq<char>>
    decreases names.len(),
{
    if names.len() == 0 {
        Seq::empty()
    } else {
        let rest = data_names_of(names.drop_last());
        if is_data_tree(names.last()) {
            rest.push(utf8_lossy(names.last()))
        } else {
            rest
        }
    }
}

/// `names` are the collections that storage knows of: each once, and every one with an entry.
pub open spec fn are_tree_names(held: Held, names: Seq<Seq<u8>>) -> bool {
    &&& names.no_duplicates()
    &&& forall|tree: Seq<char>, key: Seq<u8>| #[trigger]
        held.contains_key((tree, key)) ==> names.contains(encode_utf8(tree))
}

/// `data` are the names of the data collections of a storage whose collections are `names`: where a
/// name is UTF-8 it is kept, and none of them becomes the name of another kind of collection.
pub open spec fn are_data_names(held: Held, names: Seq<Seq<u8>>, data: Seq<Seq<char>>) -> bool {
    &&& are_tree_names(held, names)
    &&& data == data_names_of(names)
    &&& forall|i: int| 0 <= i < data.len() ==> is_data_tree(encode_utf8(#[trigger] data[i]))
    &&& forall|n: Seq<u8>|
        names.contains(n) && is_data_tree(n) && valid_utf8(n) ==> #[trigger] utf8_lossy(n)
            == decode_utf8(n)
}

/// A text with the replacement character names none of the other collections.
proof fn replaced_name_is_data(text: Seq<char>)
    requires
        text.contains('\u{fffd}'),
    ensures
        is_data_tree(encode_utf8(text)),
{
    let i = choose|i: int| 0 <= i < text.len() && text[i] == '\u{fffd}';
    reveal_strlit("raft_metadata");
    reveal_strlit("raft_state");
    reveal_strlit("raft_log");
    reveal_strlit("__sled__default");
    if encode_utf8(text) == encode_utf8(TREE_RAFT_METADATA@) {
        utf8_injective(text, TREE_RAFT_METADATA@);
        assert(false);
    }
    if encode_utf8(text) == encode_utf8(TREE_RAFT_STATE@) {
        utf8_injective(text, TREE_RAFT_STATE@);
        assert(false);
    }
    if encode_utf8(text) == encode_utf8(TREE_RAFT_LOG@) {
        utf8_injective(text, TREE_RAFT_LOG@);
        assert(false);
    }
    if encode_utf8(text) == encode_utf8(TREE_DEFAULT@) {
        utf8_injective(text, TREE_DEFAULT@);
        assert(false);
    }
}

/// The first `limit` of a listing, or all of it.
pub open spec fn at_most(
    all: Seq<(Seq<u8>, Seq<u8>)>,
    limit: Option<usize>,
) -> Seq<(Seq<u8>, Seq<u8>)> {
    if limit is Some && limit->0 < all.len() {
        all.take(limit->0 as int)
    } else {
        all
    }
}

/// The writes of a batch of pairs: the last value of each key.
pub open spec fn pair_writes(pairs: Seq<(Seq<u8>, Seq<u8>)>) -> Map<Seq<u8>, Option<Seq<u8>>>
    decreases pairs.len(),
{
    if pairs.len() == 0 {
        Map::empty()
    } else {
        pair_writes(pairs.drop_last()).insert(pairs.last().0, Some(pairs.last().1))
    }
}

/// Builds the key of an index entry: `<value>\x00<entity_key>`.
pub fn index_key(value: &[u8], entity_key: &[u8]) -> (out: Vec<u8>)
    ensures
        out@ == index_key_of(value@, entity_key@),
{
    let mut out: Vec<u8> = index_prefix(value);
    let mut i: usize = 0;
    while i < entity_key.len()
        invariant
            i <= entity_key@.len(),
            out@ == index_prefix_of(value@) + entity_key@.take(i as int),
        decreases entity_key@.len() - i,
    {
        out.push(entity_key[i]);
        assert(entity_key@.take(i + 1) =~= entity_key@.take(i as int).push(entity_key@[i as int]));
        i = i + 1;
    }
    assert(entity_key@.take(i as int) =~= entity_key@);
    out
}

/// Builds the prefix of all entries for `value` in an index.
pub fn index_prefix(value: &[u8]) -> (out: Vec<u8>)
    ensures
        out@ == index_prefix_of(value@),
{
    let mut out: Vec<u8> = copy_bytes(value);
    out.push(0u8);
    assert(out@ =~= index_prefix_of(value@));
    out
}

/// The names of the data collections among `names`.
pub fn data_names(names: &Vec<Vec<u8>>) -> (out: Vec<String>)
    ensures
        crate::text::texts_of(out@) == data_names_of(crate::record::blobs_of(names@)),
        forall|i: int| 0 <= i < out@.len() ==> is_data_tree(encode_utf8((#[trigger] out@[i])@)),
        forall|n: Seq<u8>|
            crate::record::blobs_of(names@).contains(n) && is_data_tree(n) && valid_utf8(n)
                ==> #[trigger] utf8_lossy(n) == decode_utf8(n),
{
    let mut out: Vec<String> = Vec::new();
    let mut i: usize = 0;
    let ghost all = crate::record::blobs_of(names@);
    while i < names.len()
        invariant
            i <= names@.len(),
            all == crate::record::blobs_of(names@),
            crate::text::texts_of(out@) =~= data_names_of(all.take(i as int)),
            forall|j: int| 0 <= j < out@.len() ==> is_data_tree(encode_utf8((#[trigger] out@[j])@)),
            forall|j: int|
                0 <= j < i && is_data_tree(#[trigger] all[j]) && valid_utf8(all[j]) ==> utf8_lossy(
                    all[j],
                ) == decode_utf8(all[j]),
        decreases names@.len() - i,
    {
        let name = names[i].as_slice();
        assert(all.take(i + 1).drop_last() =~= all.take(i as int));
        assert(all.take(i + 1).last() == name@);
        if !same_bytes(name, TREE_RAFT_METADATA.as_bytes()) && !same_bytes(
            name,
            TREE_RAFT_STATE.as_bytes(),
        ) && !same_bytes(name, TREE_RAFT_LOG.as_bytes()) && !same_bytes(
            name,
            TREE_DEFAULT.as_bytes(),
        ) {
            let ghost before = crate::text::texts_of(out@);
            let text: String = lossy_text(name);
            proof {
                if valid_utf8(name@) {
                    decode_utf8_encode_utf8(name@);
                } else {
                    replaced_name_is_data(text@);
                }
            }
            out.push(text);
            assert(crate::text::texts_of(out@) =~= before.push(utf8_lossy(name@)));
        }
        i = i + 1;
    }
    assert(all.take(i as int) =~= all);
    assert forall|n: Seq<u8>| all.contains(n) && is_data_tree(n) && valid_utf8(n) implies #[trigger] utf8_lossy(
        n,
    ) == decode_utf8(n) by {
        let j = choose|j: int| 0 <= j < all.len() && all[j] == n;
        assert(is_data_tree(all[j]));
    }
    out
}

pub(crate) fn no_ticket(id: u64) -> (out: StorageError)
    ensures
        out matches StorageError::NotFound(text) && text@ == no_ticket_text(id),
{
    let mut text: String = "ticket ".to_owned();
    text.append(decimal(id).as_str());
    text.append(" not found");
    StorageError::NotFound(text)
}

/// What an operation on a ticket that does not exist says.
pub open spec fn no_ticket_text(id: u64) -> Seq<char> {
    "ticket "@ + crate::text::dec(id as nat) + " not found"@
}

pub(crate) fn no_user(user_uuid: &str) -> (out: StorageError)
    ensures
        out matches StorageError::NotFound(text) && text@ == no_user_text(user_uuid@),
{
    let mut text: String = "user ".to_owned();
    text.append(user_uuid);
    text.append(" not found");
    StorageError::NotFound(text)
}

/// What an operation on a user that does not exist says.
pub open spec fn no_user_text(user_uuid: Seq<char>) -> Seq<char> {
    "user "@ + user_uuid + " not found"@
}

/// A listing by one rule is a listing by any rule that keeps the same keys.
pub proof fn listing_by_same_rule(
    held: Held,
    tree: Seq<char>,
    keep: spec_fn(Seq<u8>) -> bool,
    other: spec_fn(Seq<u8>) -> bool,
    list: Seq<(Seq<u8>, Seq<u8>)>,
)
    requires
        is_listing(held, tree, keep, list),
        forall|key: Seq<u8>| #[trigger] keep(key) == other(key),
    ensures
        is_listing(held, tree, other, list),
{
    assert forall|i: int| 0 <= i < list.len() implies other(#[trigger] list[i].0)
        && held.contains_pair((tree, list[i].0), list[i].1) by {
        assert(keep(list[i].0));
    }
    assert forall|key: Seq<u8>| #[trigger] held.dom().contains((tree, key)) && other(key) implies exists|
        i: int,
    | 0 <= i < list.len() && (#[trigger] list[i]).0 == key by {
        assert(keep(key));
    }
}

/// The first pairs of a listing, as many as the limit allows.
pub fn first_pairs(pairs: Vec<(Vec<u8>, Vec<u8>)>, limit: Option<usize>) -> (out: Vec<
    (Vec<u8>, Vec<u8>),
>)
    ensures
        pairs_of(out@) == at_most(pairs_of(pairs@), limit),
{
    let ghost all = pairs_of(pairs@);
    let mut pairs: Vec<(Vec<u8>, Vec<u8>)> = pairs;
    match limit {
        Some(most) => {
            pairs.truncate(most);
        },
        None => {},
    }
    assert(pairs_of(pairs@) =~= at_most(all, limit));
    pairs
}

/// Storage over the embedded database, with namespaced collections.
pub struct Storage {
    db: sled::Db,
}

impl View for Storage {
    type V = Held;

    closed spec fn view(&self) -> Held {
        store::entries(self.db)
    }
}

impl Storage {
    /// The directory that the storage was opened in; `None` for one that is gone when it is
    /// dropped.
    pub closed spec fn directory(&self) -> Option<Seq<char>> {
        store::directory(self.db)
    }

    /// The storage over a database that was opened, or could not be.
    pub fn over(opened: Result<sled::Db, sled::Error>) -> (out: Result<Self, StorageError>)
        ensures
            match opened {
                Ok(db) => out matches Ok(storage) && storage@ == store::entries(db)
                    && storage.directory() == store::directory(db),
                Err(_) => out matches Err(e) && e is Backend,
            },
    {
        match opened {
            Ok(db) => Ok(Storage { db }),
            Err(e) => Err(backend(e)),
        }
    }

    /// Opens the storage at `path`.
    pub fn new(path: &str) -> (out: Result<Self, StorageError>)
        ensures
            out matches Ok(storage) ==> storage.directory() == Some(path@),
            out matches Err(e) ==> e is Backend,
    {
        Storage::over(store::open_at(path))
    }

    /// Creates an empty storage that is gone when it is dropped.
    pub fn new_temp() -> (out: Result<Self, StorageError>)
        ensures
            out matches Ok(storage) ==> holds_nothing(storage@) && storage.directory() is None,
            out matches Err(e) ==> e is Backend,
    {
        Storage::over(store::open_temporary())
    }

    /// The database underneath. Writing through it goes past all that is stated of the storage.
    pub fn inner(&self) -> (out: &sled::Db)
        ensures
            store::entries(*out) == self@,
    {
        &self.db
    }

    /// The names of all collections but Raft's own and the default one.
    pub fn data_tree_names(&self) -> (out: Vec<String>)
        ensures
            exists|names: Seq<Seq<u8>>|
                are_data_names(self@, names, crate::text::texts_of(out@)) && #[trigger] data_names_of(
                    names,
                ) == crate::text::texts_of(out@),
    {
        let names: Vec<Vec<u8>> = store::tree_names(&self.db);
        proof {
            let all = crate::record::blobs_of(names@);
            assert(all.no_duplicates()) by {
                assert forall|i: int, j: int|
                    0 <= i < all.len() && 0 <= j < all.len() && i != j implies all[i] != all[j] by {
                    if i < j {
                        assert(names@[i]@ != names@[j]@);
                    } else {
                        assert(names@[j]@ != names@[i]@);
                    }
                }
            }
            assert forall|tree: Seq<char>, key: Seq<u8>| #[trigger]
                self@.contains_key((tree, key)) implies all.contains(encode_utf8(tree)) by {
                let i = choose|i: int| 0 <= i < names@.len() && (#[trigger] names@[i])@ == encode_utf8(tree);
                assert(all[i] == encode_utf8(tree));
            }
            assert(are_tree_names(self@, all));
        }
        let out: Vec<String> = data_names(&names);
        proof {
            let all = crate::record::blobs_of(names@);
            let data = crate::text::texts_of(out@);
            assert forall|i: int| 0 <= i < data.len() implies is_data_tree(
                encode_utf8(#[trigger] data[i]),
            ) by {
                assert(data[i] == out@[i]@);
            }
            assert(are_data_names(self@, all, data));
        }
        out
    }

    /// Stores a key-value pair in a collection.
    pub fn put(&mut self, collection: &str, key: &[u8], value: &[u8]) -> (out: Result<
        (),
        StorageError,
    >)
        ensures
            out is Ok ==> final(self)@ == old(self)@.insert((collection@, key@), value@),
            out matches Err(e) ==> e is Backend,
    {
        match store::insert(&mut self.db, collection, key, value) {
            Ok(()) => {},
            Err(e) => {
                return Err(backend(e));
            },
        }
        match store::flush(&mut self.db, collection) {
            Ok(()) => Ok(()),
            Err(e) => Err(backend(e)),
        }
    }

    /// Retrieves the value of a key in a collection.
    pub fn get(&self, collection: &str, key: &[u8]) -> (out: Result<Option<Vec<u8>>, StorageError>)
        ensures
            out matches Ok(Some(value)) ==> self@.contains_pair((collection@, key@), value@),
            out matches Ok(None) ==> !self@.contains_key((collection@, key@)),
            out matches Err(e) ==> e is Backend,
    {
        match store::get(&self.db, collection, key) {
            Ok(value) => Ok(value),
            Err(e) => Err(backend(e)),
        }
    }

    /// Deletes a key from a collection.
    pub fn delete(&mut self, collection: &str, key: &[u8]) -> (out: Result<(), StorageError>)
        ensures
            out is Ok ==> final(self)@ == old(self)@.remove((collection@, key@)),
            out matches Err(e) ==> e is Backend,
    {
        match store::remove(&mut self.db, collection, key) {
            Ok(()) => {},
            Err(e) => {
                return Err(backend(e));
            },
        }
        match store::flush(&mut self.db, collection) {
            Ok(()) => Ok(()),
            Err(e) => Err(backend(e)),
        }
    }

    /// Lists the pairs of a collection whose keys begin with `prefix`, in key order, and no more
    /// than `limit` of them.
    pub fn list(&self, collection: &str, prefix: &[u8], limit: Option<usize>) -> (out: Result<
        Vec<(Vec<u8>, Vec<u8>)>,
        StorageError,
    >)
        ensures
            out matches Ok(pairs) ==> exists|all: Seq<(Seq<u8>, Seq<u8>)>|
                is_listing(self@, collection@, starting_with(prefix@), all) && pairs_of(pairs@)
                    == #[trigger] at_most(all, limit),
            out matches Err(e) ==> e is Backend,
    {
        let listed = if prefix.is_empty() {
            store::list_all(&self.db, collection)
        } else {
            store::list_prefix(&self.db, collection, prefix)
        };
        match listed {
            Err(e) => Err(backend(e)),
            Ok(pairs) => {
                let ghost all = pairs_of(pairs@);
                proof {
                    if prefix@.len() == 0 {
                        assert forall|key: Seq<u8>| #[trigger] any_key()(key) == starting_with(
                            prefix@,
                        )(key) by {
                            assert(prefix@ =~= key.take(0));
                        }
                        listing_by_same_rule(
                            self@,
                            collection@,
                            any_key(),
                            starting_with(prefix@),
                            all,
                        );
                    }
                }
                Ok(first_pairs(pairs, limit))
            },
        }
    }

    /// Lists the pairs of a collection whose keys do not come before `start`, in key order.
    pub fn list_from(&self, collection: &str, start: &[u8]) -> (out: Result<
        Vec<(Vec<u8>, Vec<u8>)>,
        StorageError,
    >)
        ensures
            out matches Ok(pairs) ==> is_listing(
                self@,
                collection@,
                not_before(start@),
                pairs_of(pairs@),
            ),
            out matches Err(e) ==> e is Backend,
    {
        match store::list_from(&self.db, collection, start) {
            Ok(pairs) => Ok(pairs),
            Err(e) => Err(backend(e)),
        }
    }

    /// Lists the pairs of a collection whose keys do not come after `end`, in key order.
    pub fn list_through(&self, collection: &str, end: &[u8]) -> (out: Result<
        Vec<(Vec<u8>, Vec<u8>)>,
        StorageError,
    >)
        ensures
            out matches Ok(pairs) ==> is_listing(
                self@,
                collection@,
                not_after(end@),
                pairs_of(pairs@),
            ),
            out matches Err(e) ==> e is Backend,
    {
        match store::list_through(&self.db, collection, end) {
            Ok(pairs) => Ok(pairs),
            Err(e) => Err(backend(e)),
        }
    }

    /// Does all writes of a batch to a collection at once.
    pub(crate) fn write_batch(&mut self, collection: &str, batch: sled::Batch) -> (out: Result<
        (),
        StorageError,
    >)
        ensures
            out is Ok ==> final(self)@ == after_writes(
                old(self)@,
                collection@,
                batch_writes(batch),
            ),
            out matches Err(e) ==> e is Backend,
    {
        match store::apply_batch(&mut self.db, collection, batch) {
            Ok(()) => {},
            Err(e) => {
                return Err(backend(e));
            },
        }
        match store::flush(&mut self.db, collection) {
            Ok(()) => Ok(()),
            Err(e) => Err(backend(e)),
        }
    }

    /// Whether a key exists in a collection.
    pub fn has_key(&self, collection: &str, key: &[u8]) -> (out: Result<bool, StorageError>)
        ensures
            out matches Ok(found) ==> found == self@.contains_key((collection@, key@)),
            out matches Err(e) ==> e is Backend,
    {
        match store::contains_key(&self.db, collection, key) {
            Ok(found) => Ok(found),
            Err(e) => Err(backend(e)),
        }
    }

    /// Stores all pairs in a collection at once and says how many there were.
    pub fn batch_put(&mut self, collection: &str, pairs: &Vec<(Vec<u8>, Vec<u8>)>) -> (out: Result<
        usize,
        StorageError,
    >)
        ensures
            out matches Ok(count) ==> count == pairs@.len() && final(self)@ == after_writes(
                old(self)@,
                collection@,
                pair_writes(pairs_of(pairs@)),
            ),
            out matches Err(e) ==> e is Backend,
    {
        let mut batch: sled::Batch = store::new_batch();
        let mut i: usize = 0;
        let ghost all = pairs_of(pairs@);
        assert(all.take(0) =~= Seq::empty());
        while i < pairs.len()
            invariant
                i <= pairs@.len(),
                all == pairs_of(pairs@),
                batch_writes(batch) == pair_writes(all.take(i as int)),
            decreases pairs@.len() - i,
        {
            store::batch_insert(&mut batch, pairs[i].0.as_slice(), pairs[i].1.as_slice());
            assert(all.take(i + 1).drop_last() =~= all.take(i as int));
            i = i + 1;
        }
        assert(all.take(i as int) =~= all);
        self.write_batch(collection, batch)?;
        Ok(pairs.len())
    }

    /// Allocates the next id for `name`.
    pub fn next_id(&mut self, name: &[u8]) -> (out: Result<u64, StorageError>)
        ensures
            out matches Ok(id) ==> id == next_counter_value(old(self)@, name@) && final(self)@
                == old(self)@.insert(counter_at(name@), be8(id)),
            out matches Err(e) ==> e is Backend,
    {
        let fetched: Option<Vec<u8>> = match store::advance_counter(&mut self.db, TREE_SEQ, name) {
            Ok(fetched) => fetched,
            Err(e) => {
                return Err(backend(e));
            },
        };
        match store::flush(&mut self.db, TREE_SEQ) {
            Ok(()) => {},
            Err(e) => {
                return Err(backend(e));
            },
        }
        proof {
            be8_round_trip(next_counter_value(old(self)@, name@));
        }
        match fetched {
            Some(bytes) => match read_be8(bytes.as_slice()) {
                Some(id) => Ok(id),
                None => Err(StorageError::Corrupt("corrupt sequence counter".to_owned())),
            },
            None => Err(
                StorageError::Corrupt("sequence counter missing after update".to_owned()),
            ),
        }
    }

    /// Writes or removes the index entries of an entity.
    fn write_indexes(
        &mut self,
        values: &Vec<(&'static str, Vec<u8>)>,
        entity: &[u8],
        insert: bool,
    ) -> (out: Result<(), StorageError>)
        ensures
            out is Ok ==> final(self)@ == (if insert {
                index_written(old(self)@, values_of(values@), entity@)
            } else {
                index_erased(old(self)@, values_of(values@), entity@)
            }),
            out matches Err(e) ==> e is Backend,
    {
        let mut i: usize = 0;
        let ghost all = values_of(values@);
        assert(index_written(self@, all.take(0), entity@) =~= self@);
        assert(index_erased(self@, all.take(0), entity@) =~= self@);
        while i < values.len()
            invariant
                i <= values@.len(),
                all == values_of(values@),
                insert ==> self@ == index_written(old(self)@, all.take(i as int), entity@),
                !insert ==> self@ == index_erased(old(self)@, all.take(i as int), entity@),
            decreases values@.len() - i,
        {
            let key: Vec<u8> = index_key(values[i].1.as_slice(), entity);
            let ghost was = self@;
            let ghost at = (all[i as int].0, index_key_of(all[i as int].1, entity@));
            proof {
                entry_of_one_more(all, entity@, i as int);
            }
            if insert {
                match self.put(values[i].0, key.as_slice(), entity) {
                    Ok(()) => {},
                    Err(e) => {
                        return Err(e);
                    },
                }
                assert(self@ =~= index_written(old(self)@, all.take(i + 1), entity@));
            } else {
                match self.delete(values[i].0, key.as_slice()) {
                    Ok(()) => {},
                    Err(e) => {
                        return Err(e);
                    },
                }
                assert(self@ =~= index_erased(old(self)@, all.take(i + 1), entity@));
            }
            i = i + 1;
        }
        assert(all.take(i as int) =~= all);
        Ok(())
    }

    pub(crate) fn write_ticket_indexes(&mut self, id: u64, index: &TicketIndexFields, insert: bool) -> (out:
        Result<(), StorageError>)
        ensures
            out is Ok ==> final(self)@ == (if insert {
                index_written(old(self)@, ticket_index_values(index@), be8(id))
            } else {
                index_erased(old(self)@, ticket_index_values(index@), be8(id))
            }),
            out matches Err(e) ==> e is Backend,
    {
        let entity: Vec<u8> = to_be8(id);
        let values: Vec<(&'static str, Vec<u8>)> = ticket_index_entries(index);
        self.write_indexes(&values, entity.as_slice(), insert)
    }

    pub(crate) fn write_user_indexes(&mut self, user_uuid: &str, index: &UserIndexFields, insert: bool) -> (out:
        Result<(), StorageError>)
        ensures
            out is Ok ==> final(self)@ == (if insert {
                index_written(old(self)@, user_index_values(index@), encode_utf8(user_uuid@))
            } else {
                index_erased(old(self)@, user_index_values(index@), encode_utf8(user_uuid@))
            }),
            out matches Err(e) ==> e is Backend,
    {
        let values: Vec<(&'static str, Vec<u8>)> = user_index_entries(index);
        self.write_indexes(&values, user_uuid.as_bytes(), insert)
    }

    pub(crate) fn write_ticket_row(&mut self, id: u64, stored: &StoredTicket) -> (out: Result<
        (),
        StorageError,
    >)
        ensures
            out is Ok ==> final(self)@ == old(self)@.insert(ticket_at(id), ticket_bytes(stored@))
                && ticket_in(ticket_bytes(stored@)) == Some(stored@),
            out matches Err(e) ==> e is Backend,
    {
        let key: Vec<u8> = to_be8(id);
        match write_record(&stored.to_record()) {
            Ok(bytes) => {
                proof {
                    ticket_record_round_trip(stored@);
                }
                self.put(TREE_TICKETS, key.as_slice(), bytes.as_slice())
            },
            Err(e) => Err(StorageError::Corrupt(json_error_text(&e))),
        }
    }

    pub(crate) fn write_user_row(&mut self, user_uuid: &str, stored: &StoredUser) -> (out: Result<
        (),
        StorageError,
    >)
        ensures
            out is Ok ==> final(self)@ == old(self)@.insert(user_at(user_uuid@), user_bytes(stored@))
                && user_in(user_bytes(stored@)) == Some(stored@),
            out matches Err(e) ==> e is Backend,
    {
        match write_record(&stored.to_record()) {
            Ok(bytes) => {
                proof {
                    user_record_round_trip(stored@);
                }
                self.put(TREE_USERS, user_uuid.as_bytes(), bytes.as_slice())
            },
            Err(e) => Err(StorageError::Corrupt(json_error_text(&e))),
        }
    }

    /// Fetches the row of a ticket, deleted or not.
    pub(crate) fn ticket_row(&self, id: u64) -> (out: Result<Option<Vec<u8>>, StorageError>)
        ensures
            out matches Ok(row) ==> ticket_in_row(blob_of(row)) == lookup_ticket(self@, id),
            out matches Err(e) ==> e is Backend,
    {
        let key: Vec<u8> = to_be8(id);
        self.get(TREE_TICKETS, key.as_slice())
    }

    /// Fetches the row of a user, deleted or not.
    pub(crate) fn user_row(&self, user_uuid: &str) -> (out: Result<Option<Vec<u8>>, StorageError>)
        ensures
            out matches Ok(row) ==> user_in_row(blob_of(row)) == lookup_user(self@, user_uuid@),
            out matches Err(e) ==> e is Backend,
    {
        self.get(TREE_USERS, user_uuid.as_bytes())
    }
}

/// Reads the row of a ticket, where there is one.
pub fn read_ticket(row: Option<Vec<u8>>) -> (out: Result<Option<StoredTicket>, StorageError>)
    ensures
        match ticket_in_row(blob_of(row)) {
            Lookup::Found(t) => out matches Ok(Some(stored)) && stored@ == t,
            Lookup::Missing => out matches Ok(None),
            Lookup::Corrupt => out matches Err(StorageError::Corrupt(_)),
        },
{
    match row {
        None => Ok(None),
        Some(bytes) => match read_record(bytes.as_slice()) {
            Err(e) => Err(StorageError::Corrupt(json_error_text(&e))),
            Ok(record) => match StoredTicket::from_record(&record) {
                Some(stored) => Ok(Some(stored)),
                None => Err(StorageError::Corrupt("not a ticket row".to_owned())),
            },
        },
    }
}

/// Reads the row of a user, where there is one.
pub fn read_user(row: Option<Vec<u8>>) -> (out: Result<Option<StoredUser>, StorageError>)
    ensures
        match user_in_row(blob_of(row)) {
            Lookup::Found(u) => out matches Ok(Some(stored)) && stored@ == u,
            Lookup::Missing => out matches Ok(None),
            Lookup::Corrupt => out matches Err(StorageError::Corrupt(_)),
        },
{
    match row {
        None => Ok(None),
        Some(bytes) => match read_record(bytes.as_slice()) {
            Err(e) => Err(StorageError::Corrupt(json_error_text(&e))),
            Ok(record) => match StoredUser::from_record(&record) {
                Some(stored) => Ok(Some(stored)),
                None => Err(StorageError::Corrupt("not a user row".to_owned())),
            },
        },
    }
}

/// One more index value adds one more entry.
proof fn entry_of_one_more(all: Seq<(Seq<char>, Seq<u8>)>, entity: Seq<u8>, n: int)
    requires
        0 <= n < all.len(),
    ensures
        forall|at: (Seq<char>, Seq<u8>)| #[trigger]
            is_entry(all.take(n + 1), entity, at) <==> is_entry(all.take(n), entity, at) || at == (
                all[n].0,
                index_key_of(all[n].1, entity),
            ),
{
    assert forall|at: (Seq<char>, Seq<u8>)| #[trigger]
        is_entry(all.take(n + 1), entity, at) <==> is_entry(all.take(n), entity, at) || at == (
            all[n].0,
            index_key_of(all[n].1, entity),
        ) by {
        let longer = all.take(n + 1);
        let shorter = all.take(n);
        if is_entry(longer, entity, at) {
            let i = choose|i: int|
                0 <= i < longer.len() && at == ((#[trigger] longer[i]).0, index_key_of(longer[i].1, entity));
            if i < n {
                assert(shorter[i] == longer[i]);
            }
        }
        if is_entry(shorter, entity, at) {
            let i = choose|i: int|
                0 <= i < shorter.len() && at == ((#[trigger] shorter[i]).0, index_key_of(shorter[i].1, entity));
            assert(longer[i] == shorter[i]);
        }
        assert(longer[n] == all[n]);
    }
}

// ---- Laws ----

/// A value that was put is read back, one that was deleted is not, and no other entry changes.
pub proof fn writes_are_read_back(
    held: Held,
    at: (Seq<char>, Seq<u8>),
    value: Seq<u8>,
    other: (Seq<char>, Seq<u8>),
)
    requires
        other != at,
    ensures
        held.insert(at, value).contains_pair(at, value),
        !held.remove(at).contains_key(at),
        held.insert(at, value).contains_key(other) == held.contains_key(other),
        held.remove(at).contains_key(other) == held.contains_key(other),
        held.contains_key(other) ==> held.insert(at, value)[other] == held[other]
            && held.remove(at)[other] == held[other],
{
}

/// Of the pairs that are put at once, each is read back unless a later one has its key.
pub proof fn batches_are_read_back(
    held: Held,
    tree: Seq<char>,
    pairs: Seq<(Seq<u8>, Seq<u8>)>,
    i: int,
)
    requires
        0 <= i < pairs.len(),
        forall|j: int| i < j < pairs.len() ==> (#[trigger] pairs[j]).0 != pairs[i].0,
    ensures
        after_writes(held, tree, pair_writes(pairs)).contains_pair((tree, pairs[i].0), pairs[i].1),
{
    last_write_stays(pairs, i);
}

proof fn last_write_stays(pairs: Seq<(Seq<u8>, Seq<u8>)>, i: int)
    requires
        0 <= i < pairs.len(),
        forall|j: int| i < j < pairs.len() ==> (#[trigger] pairs[j]).0 != pairs[i].0,
    ensures
        pair_writes(pairs).contains_pair(pairs[i].0, Some(pairs[i].1)),
    decreases pairs.len(),
{
    if i < pairs.len() - 1 {
        let rest = pairs.drop_last();
        assert(rest[i] == pairs[i]);
        assert(pairs[pairs.len() - 1].0 != pairs[i].0);
        assert forall|j: int| i < j < rest.len() implies (#[trigger] rest[j]).0 != rest[i].0 by {
            assert(rest[j] == pairs[j]);
        }
        last_write_stays(rest, i);
    }
}

/// The ids of a counter grow by one, until the last number there is, and other counters stay.
pub proof fn ids_grow(held: Held, name: Seq<u8>, other: Seq<u8>)
    requires
        other != name,
    ensures
        ({
            let id = next_counter_value(held, name);
            let now = held.insert(counter_at(name), be8(id));
            &&& id < u64::MAX ==> next_counter_value(now, name) == id + 1
            &&& id == u64::MAX ==> next_counter_value(now, name) == id
            &&& next_counter_value(now, other) == next_counter_value(held, other)
        }),
{
    be8_round_trip(next_counter_value(held, name));
}

} // verus!
