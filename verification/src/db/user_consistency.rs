//! The user indexes agree with the rows of the users.

use vstd::prelude::*;
use vstd::utf8::{
    encode_utf8, encode_utf8_decode_utf8, encode_utf8_valid_utf8, valid_utf8,
};

use crate::db::consistency::prefix_tells_the_value;
use crate::db::rows::{
    index_names_apart, is_user_index, user_index_values, UserIndexView, UserView, IDX_USER_EMAIL,
    IDX_USER_NAME, IDX_USER_ROLE,
};
use crate::db::storage::{
    index_key_of, index_prefix_of, is_entry, lookup_user, new_user, user_at, user_created,
    user_rewritten, Held, Lookup, TREE_USERS,
};
use crate::db::tickets::row_trees_apart;
use crate::db::users::{user_entries_in_indexes, utf8_is_kept, value_texts};
use crate::store::{holds_nothing, is_listing, starting_with};
use crate::text::utf8_injective;
use crate::bytes::{lex_lt, lex_lt_irreflexive};

verus! {

/// `at` is where an index entry of the live user `uuid` stands.
pub open spec fn is_live_user_entry(held: Held, uuid: Seq<char>, at: (Seq<char>, Seq<u8>)) -> bool {
    lookup_user(held, uuid) matches Lookup::Found(u) && !u.deleted && is_entry(
        user_index_values(u.index),
        encode_utf8(uuid),
        at,
    )
}

/// A name that holds no zero byte, which would end it inside an index key.
pub open spec fn is_plain(uuid: Seq<char>) -> bool {
    !encode_utf8(uuid).contains(0u8)
}

/// Every user's name is plain, every live user is entered in the indexes, and the indexes hold
/// nothing else.
pub open spec fn users_consistent(held: Held) -> bool {
    &&& forall|uuid: Seq<char>| #[trigger] held.contains_key(user_at(uuid)) ==> is_plain(uuid)
    &&& forall|uuid: Seq<char>, at: (Seq<char>, Seq<u8>)| #[trigger]
        is_live_user_entry(held, uuid, at) ==> held.contains_pair(at, encode_utf8(uuid))
    &&& forall|at: (Seq<char>, Seq<u8>)|
        is_user_index(at.0) && #[trigger] held.contains_key(at) ==> exists|uuid: Seq<char>|
            is_live_user_entry(held, uuid, at)
}

/// Index keys tell entities without a zero byte apart.
proof fn plain_entities_apart(v: Seq<u8>, d: Seq<u8>, w: Seq<u8>, e: Seq<u8>)
    requires
        index_key_of(v, d) == index_key_of(w, e),
        !d.contains(0u8),
        !e.contains(0u8),
    ensures
        d == e,
        v == w,
{
    let key = index_key_of(v, d);
    let other = index_key_of(w, e);
    assert(key.len() == v.len() + 1 + d.len());
    assert(other.len() == w.len() + 1 + e.len());
    assert(key[v.len() as int] == 0u8);
    assert(other[w.len() as int] == 0u8);
    if v.len() < w.len() {
        let i = w.len() - v.len() - 1;
        assert(d[i] == key[w.len() as int]);
        assert(d.contains(0u8));
    }
    if w.len() < v.len() {
        let i = v.len() - w.len() - 1;
        assert(e[i] == other[v.len() as int]);
        assert(e.contains(0u8));
    }
    assert(key.skip(v.len() as int + 1) =~= d);
    assert(other.skip(v.len() as int + 1) =~= e);
    assert(key.take(v.len() as int) =~= v);
    assert(other.take(v.len() as int) =~= w);
}

/// Entries of different users stand at different places.
proof fn user_entries_apart(
    one: UserIndexView,
    uuid: Seq<char>,
    other: UserIndexView,
    other_uuid: Seq<char>,
    at: (Seq<char>, Seq<u8>),
)
    requires
        is_plain(uuid),
        is_plain(other_uuid),
        is_entry(user_index_values(one), encode_utf8(uuid), at),
        is_entry(user_index_values(other), encode_utf8(other_uuid), at),
    ensures
        uuid == other_uuid,
{
    let v = user_index_values(one);
    let w = user_index_values(other);
    let d = encode_utf8(uuid);
    let e = encode_utf8(other_uuid);
    let i = choose|i: int| 0 <= i < v.len() && at == ((#[trigger] v[i]).0, index_key_of(v[i].1, d));
    let j = choose|j: int| 0 <= j < w.len() && at == ((#[trigger] w[j]).0, index_key_of(w[j].1, e));
    plain_entities_apart(v[i].1, d, w[j].1, e);
    utf8_injective(uuid, other_uuid);
}

/// Rewriting the row of one user leaves the rows of the others.
pub proof fn other_users_stay(
    held: Held,
    uuid: Seq<char>,
    before: UserView,
    after: UserView,
    other: Seq<char>,
)
    requires
        other != uuid,
    ensures
        lookup_user(user_rewritten(held, uuid, before, after), other) == lookup_user(held, other),
        user_rewritten(held, uuid, before, after).contains_key(user_at(other))
            == held.contains_key(user_at(other)),
{
    row_trees_apart();
    let d = encode_utf8(uuid);
    if d == encode_utf8(other) {
        utf8_injective(uuid, other);
    }
    let at = user_at(other);
    if is_entry(user_index_values(before.index), d, at) {
        user_entries_in_indexes(before.index, d, at);
    }
    if is_entry(user_index_values(after.index), d, at) {
        user_entries_in_indexes(after.index, d, at);
    }
}

/// Updating or deleting a user keeps rows and indexes in agreement.
pub proof fn rewriting_keeps_users_consistent(
    held: Held,
    uuid: Seq<char>,
    before: UserView,
    after: UserView,
)
    requires
        users_consistent(held),
        lookup_user(held, uuid) == Lookup::Found(before),
        lookup_user(user_rewritten(held, uuid, before, after), uuid) == Lookup::Found(after),
    ensures
        users_consistent(user_rewritten(held, uuid, before, after)),
{
    let now = user_rewritten(held, uuid, before, after);
    let d = encode_utf8(uuid);
    row_trees_apart();
    assert(held.contains_key(user_at(uuid)));
    assert forall|other: Seq<char>| #[trigger] now.contains_key(user_at(other)) implies is_plain(
        other,
    ) by {
        if other != uuid {
            other_users_stay(held, uuid, before, after, other);
        }
    }
    assert forall|other: Seq<char>, at: (Seq<char>, Seq<u8>)| #[trigger]
        is_live_user_entry(now, other, at) implies now.contains_pair(at, encode_utf8(other)) by {
        let u = lookup_user(now, other)->Found_0;
        user_entries_in_indexes(u.index, encode_utf8(other), at);
        if other == uuid {
            assert(u == after);
        } else {
            other_users_stay(held, uuid, before, after, other);
            assert(held.contains_key(user_at(other)));
            assert(is_live_user_entry(held, other, at));
            if is_entry(user_index_values(before.index), d, at) {
                user_entries_apart(before.index, uuid, u.index, other, at);
            }
            if is_entry(user_index_values(after.index), d, at) {
                user_entries_apart(after.index, uuid, u.index, other, at);
            }
        }
    }
    assert forall|at: (Seq<char>, Seq<u8>)|
        is_user_index(at.0) && #[trigger] now.contains_key(at) implies exists|other: Seq<char>|
            is_live_user_entry(now, other, at) by {
        if !after.deleted && is_entry(user_index_values(after.index), d, at) {
            assert(is_live_user_entry(now, uuid, at));
        } else {
            assert(held.contains_key(at));
            let other = choose|other: Seq<char>| is_live_user_entry(held, other, at);
            if other == uuid {
                assert(is_entry(user_index_values(before.index), d, at));
                assert(!before.deleted);
                assert(false);
            }
            other_users_stay(held, uuid, before, after, other);
            assert(is_live_user_entry(now, other, at));
        }
    }
}

/// Creating a user under a plain name that is not taken keeps rows and indexes in agreement.
pub proof fn creating_keeps_users_consistent(
    held: Held,
    uuid: Seq<char>,
    body: Seq<u8>,
    index: UserIndexView,
)
    requires
        users_consistent(held),
        is_plain(uuid),
        lookup_user(held, uuid) is Missing,
        lookup_user(user_created(held, uuid, body, index), uuid) == Lookup::Found(
            new_user(body, index),
        ),
    ensures
        users_consistent(user_created(held, uuid, body, index)),
{
    let now = user_created(held, uuid, body, index);
    let d = encode_utf8(uuid);
    row_trees_apart();
    assert forall|other: Seq<char>| other != uuid implies #[trigger] lookup_user(now, other)
        == lookup_user(held, other) && now.contains_key(user_at(other)) == held.contains_key(
        user_at(other),
    ) by {
        if d == encode_utf8(other) {
            utf8_injective(uuid, other);
        }
        if is_entry(user_index_values(index), d, user_at(other)) {
            user_entries_in_indexes(index, d, user_at(other));
        }
    }
    assert forall|other: Seq<char>| #[trigger] now.contains_key(user_at(other)) implies is_plain(
        other,
    ) by {
        if other != uuid {
            assert(lookup_user(now, other) == lookup_user(held, other));
        }
    }
    assert forall|other: Seq<char>, at: (Seq<char>, Seq<u8>)| #[trigger]
        is_live_user_entry(now, other, at) implies now.contains_pair(at, encode_utf8(other)) by {
        let u = lookup_user(now, other)->Found_0;
        user_entries_in_indexes(u.index, encode_utf8(other), at);
        if other != uuid {
            assert(lookup_user(now, other) == lookup_user(held, other));
            assert(held.contains_key(user_at(other)));
            assert(is_live_user_entry(held, other, at));
            if is_entry(user_index_values(index), d, at) {
                user_entries_apart(index, uuid, u.index, other, at);
            }
        }
    }
    assert forall|at: (Seq<char>, Seq<u8>)|
        is_user_index(at.0) && #[trigger] now.contains_key(at) implies exists|other: Seq<char>|
            is_live_user_entry(now, other, at) by {
        if is_entry(user_index_values(index), d, at) {
            assert(is_live_user_entry(now, uuid, at));
        } else {
            assert(held.contains_key(at));
            let other = choose|other: Seq<char>| is_live_user_entry(held, other, at);
            assert(other != uuid);
            assert(lookup_user(now, other) == lookup_user(held, other));
            assert(is_live_user_entry(now, other, at));
        }
    }
}

/// A deleted user is in no index.
pub proof fn deleted_user_is_in_no_index(held: Held, uuid: Seq<char>, at: (Seq<char>, Seq<u8>))
    requires
        users_consistent(held),
        lookup_user(held, uuid) matches Lookup::Found(u) && u.deleted,
        is_user_index(at.0),
    ensures
        !held.contains_pair(at, encode_utf8(uuid)),
{
    if held.contains_pair(at, encode_utf8(uuid)) {
        let other = choose|other: Seq<char>| is_live_user_entry(held, other, at);
        assert(held.contains_pair(at, encode_utf8(other)));
        utf8_injective(uuid, other);
    }
}

/// The two storages hold the same users and the same user indexes.
pub open spec fn same_users(held: Held, now: Held) -> bool {
    forall|at: (Seq<char>, Seq<u8>)|
        (at.0 == TREE_USERS@ || is_user_index(at.0)) ==> (#[trigger] now.contains_key(at)
            == held.contains_key(at)) && (held.contains_key(at) ==> now[at] == held[at])
}

/// A change to nothing but other collections keeps the rows and the indexes of users in agreement.
pub proof fn other_changes_keep_users_consistent(held: Held, now: Held)
    requires
        users_consistent(held),
        same_users(held, now),
    ensures
        users_consistent(now),
{
    assert forall|uuid: Seq<char>| #[trigger] lookup_user(now, uuid) == lookup_user(held, uuid) by {
        assert(now.contains_key(user_at(uuid)) == held.contains_key(user_at(uuid)));
    }
    assert forall|uuid: Seq<char>, at: (Seq<char>, Seq<u8>)| #[trigger]
        is_live_user_entry(now, uuid, at) implies now.contains_pair(at, encode_utf8(uuid)) by {
        assert(lookup_user(now, uuid) == lookup_user(held, uuid));
        assert(is_live_user_entry(held, uuid, at));
        user_entries_in_indexes(lookup_user(held, uuid)->Found_0.index, encode_utf8(uuid), at);
        assert(now.contains_key(at) == held.contains_key(at));
    }
    assert forall|at: (Seq<char>, Seq<u8>)|
        is_user_index(at.0) && #[trigger] now.contains_key(at) implies exists|uuid: Seq<char>|
            is_live_user_entry(now, uuid, at) by {
        assert(held.contains_key(at));
        let uuid = choose|uuid: Seq<char>| is_live_user_entry(held, uuid, at);
        assert(lookup_user(now, uuid) == lookup_user(held, uuid));
        assert(is_live_user_entry(now, uuid, at));
    }
}

/// The indexes of an empty storage agree with its users.
pub proof fn empty_users_are_consistent(held: Held)
    requires
        holds_nothing(held),
    ensures
        users_consistent(held),
{
}

/// The entity of a live user stands in a listing of an index by one of the user's own values.
pub proof fn live_user_is_listed(
    held: Held,
    uuid: Seq<char>,
    field: int,
    list: Seq<(Seq<u8>, Seq<u8>)>,
)
    requires
        users_consistent(held),
        lookup_user(held, uuid) matches Lookup::Found(u) && !u.deleted && 0 <= field
            < user_index_values(u.index).len() && is_listing(
            held,
            user_index_values(u.index)[field].0,
            starting_with(index_prefix_of(user_index_values(u.index)[field].1)),
            list,
        ),
    ensures
        exists|i: int| 0 <= i < list.len() && (#[trigger] list[i]).1 == encode_utf8(uuid),
{
    let u = lookup_user(held, uuid)->Found_0;
    let (tree, value) = user_index_values(u.index)[field];
    let key = index_key_of(value, encode_utf8(uuid));
    let at = (tree, key);
    assert(is_entry(user_index_values(u.index), encode_utf8(uuid), at));
    assert(is_live_user_entry(held, uuid, at));
    assert(held.contains_pair(at, encode_utf8(uuid)));
    assert(held.dom().contains((tree, key)));
    assert(index_prefix_of(value).is_prefix_of(key)) by {
        assert(key.take(index_prefix_of(value).len() as int) =~= index_prefix_of(value));
    }
    let i = choose|i: int| 0 <= i < list.len() && (#[trigger] list[i]).0 == key;
    assert(held.contains_pair((tree, list[i].0), list[i].1));
}

/// The collection of an index over users: by name, by email address, by role.
pub open spec fn user_tree(field: int) -> Seq<char> {
    if field == 0 {
        IDX_USER_NAME@
    } else if field == 1 {
        IDX_USER_EMAIL@
    } else {
        IDX_USER_ROLE@
    }
}

/// The user is live and has the value in the field.
pub open spec fn is_live_with(held: Held, uuid: Seq<char>, field: int, value: Seq<u8>) -> bool {
    lookup_user(held, uuid) matches Lookup::Found(u) && !u.deleted && user_index_values(
        u.index,
    )[field].1 == value
}

/// The value cannot be mistaken for the beginning of another: it is a role, or neither it nor any
/// live user's value in the field holds a zero byte.
pub open spec fn is_unmistakable(held: Held, field: int, value: Seq<u8>) -> bool {
    (field == 2 && value.len() == 1) || (!value.contains(0u8) && forall|uuid: Seq<char>, w: Seq<u8>|
        #[trigger]
        is_live_with(held, uuid, field, w) ==> !w.contains(0u8))
}

/// `ids` are the live users with the value in the field, each once.
pub open spec fn are_users_with(
    held: Held,
    field: int,
    value: Seq<u8>,
    ids: Seq<Seq<char>>,
) -> bool {
    &&& ids.no_duplicates()
    &&& forall|uuid: Seq<char>| #[trigger]
        ids.contains(uuid) <==> is_live_with(held, uuid, field, value)
}

/// The entry at a place of a listing is that of a live user with the value.
proof fn listed_entry(
    held: Held,
    field: int,
    value: Seq<u8>,
    list: Seq<(Seq<u8>, Seq<u8>)>,
    i: int,
) -> (uuid: Seq<char>)
    requires
        users_consistent(held),
        0 <= field < 3,
        is_unmistakable(held, field, value),
        is_listing(held, user_tree(field), starting_with(index_prefix_of(value)), list),
        0 <= i < list.len(),
    ensures
        is_live_with(held, uuid, field, value),
        list[i].1 == encode_utf8(uuid),
        list[i].0 == index_key_of(value, encode_utf8(uuid)),
{
    let tree = user_tree(field);
    let at = (tree, list[i].0);
    assert(starting_with(index_prefix_of(value))(list[i].0));
    assert(held.contains_pair(at, list[i].1));
    assert(held.contains_key(at));
    let uuid = choose|uuid: Seq<char>| is_live_user_entry(held, uuid, at);
    let u = lookup_user(held, uuid)->Found_0;
    let values = user_index_values(u.index);
    let d = encode_utf8(uuid);
    let j = choose|j: int|
        0 <= j < values.len() && at == ((#[trigger] values[j]).0, index_key_of(values[j].1, d));
    index_names_apart();
    assert(j == field);
    assert(held.contains_pair(at, d));
    assert(is_live_with(held, uuid, field, values[field].1));
    prefix_tells_the_value(value, values[field].1, d);
    uuid
}

/// A listing of an index by a value gives the live users with that value, and no others.
pub proof fn listing_gives_the_users(
    held: Held,
    field: int,
    value: Seq<u8>,
    list: Seq<(Seq<u8>, Seq<u8>)>,
)
    requires
        users_consistent(held),
        0 <= field < 3,
        is_unmistakable(held, field, value),
        is_listing(held, user_tree(field), starting_with(index_prefix_of(value)), list),
        utf8_is_kept(list),
    ensures
        are_users_with(held, field, value, value_texts(list)),
{
    let ids = value_texts(list);
    assert forall|i: int| 0 <= i < list.len() implies is_live_with(
        held,
        #[trigger] ids[i],
        field,
        value,
    ) && list[i].1 == encode_utf8(ids[i]) && list[i].0 == index_key_of(
        value,
        encode_utf8(ids[i]),
    ) by {
        let uuid = listed_entry(held, field, value, list, i);
        encode_utf8_valid_utf8(uuid);
        encode_utf8_decode_utf8(uuid);
        assert(valid_utf8(list[i].1));
        assert(ids[i] == uuid);
    }
    assert forall|i: int, j: int| 0 <= i < ids.len() && 0 <= j < ids.len() && i != j implies ids[i]
        != ids[j] by {
        if ids[i] == ids[j] {
            assert(list[i].0 == list[j].0);
            if i < j {
                assert(lex_lt(list[i].0, list[j].0));
            } else {
                assert(lex_lt(list[j].0, list[i].0));
            }
            lex_lt_irreflexive(list[i].0);
        }
    }
    assert forall|uuid: Seq<char>| #[trigger] ids.contains(uuid) <==> is_live_with(
        held,
        uuid,
        field,
        value,
    ) by {
        if is_live_with(held, uuid, field, value) {
            live_user_is_listed(held, uuid, field, list);
            let i = choose|i: int| 0 <= i < list.len() && (#[trigger] list[i]).1 == encode_utf8(uuid);
            assert(list[i].1 == encode_utf8(ids[i]));
            utf8_injective(uuid, ids[i]);
            assert(ids[i] == uuid);
        }
        if ids.contains(uuid) {
            let i = choose|i: int| 0 <= i < ids.len() && ids[i] == uuid;
            assert(is_live_with(held, ids[i], field, value));
        }
    }
}

} // verus!
