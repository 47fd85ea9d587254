//! User rows and the indexes over them.

use vstd::prelude::*;
use vstd::utf8::{decode_utf8, encode_utf8, valid_utf8};

use crate::db::rows::{
    is_user_index, user_index_values, StoredUser, UserIndexFields, UserIndexView, UserView,
};
use crate::db::storage::{
    at_most, index_key_of, index_prefix, index_prefix_of, is_entry, lookup_user, lossy_text,
    new_user, no_user, no_user_text, read_user, user_at, user_bytes, user_created, user_in,
    user_in_row, user_rewritten, utf8_lossy, Held, Lookup, Storage, StorageError,
};
use crate::db::tickets::row_trees_apart;
use crate::db::user_consistency::{
    are_users_with, creating_keeps_users_consistent, is_plain, is_unmistakable,
    listing_gives_the_users, rewriting_keeps_users_consistent, user_tree, users_consistent,
};
use crate::store::{is_listing, pairs_of, starting_with};
use crate::text::{blob_of, copy_bytes, texts_of};

verus! {

/// The values of a listing as text.
pub open spec fn value_texts(list: Seq<(Seq<u8>, Seq<u8>)>) -> Seq<Seq<char>> {
    Seq::new(list.len(), |i: int| utf8_lossy(list[i].1))
}

/// Values of a listing that are UTF-8 come back as the text that they encode.
pub open spec fn utf8_is_kept(list: Seq<(Seq<u8>, Seq<u8>)>) -> bool {
    forall|i: int|
        0 <= i < list.len() && valid_utf8((#[trigger] list[i]).1) ==> utf8_lossy(list[i].1)
            == decode_utf8(list[i].1)
}

/// The index entries of a user stand in the user indexes.
pub proof fn user_entries_in_indexes(
    index: UserIndexView,
    entity: Seq<u8>,
    at: (Seq<char>, Seq<u8>),
)
    requires
        is_entry(user_index_values(index), entity, at),
    ensures
        is_user_index(at.0),
{
    let values = user_index_values(index);
    let i = choose|i: int|
        0 <= i < values.len() && at == ((#[trigger] values[i]).0, index_key_of(values[i].1, entity));
    assert(is_user_index(values[i].0));
}

/// Writing a user's row and entries leaves the row to be found.
proof fn rewritten_user_is_found(held: Held, uuid: Seq<char>, before: UserView, after: UserView)
    requires
        user_in(user_bytes(after)) == Some(after),
    ensures
        lookup_user(user_rewritten(held, uuid, before, after), uuid) == Lookup::Found(after),
{
    row_trees_apart();
    if is_entry(user_index_values(after.index), encode_utf8(uuid), user_at(uuid)) {
        user_entries_in_indexes(after.index, encode_utf8(uuid), user_at(uuid));
    }
}

/// The user of a row as it is shown: a deleted one only where it is asked for.
pub fn shown_user(row: Option<Vec<u8>>, include_deleted: bool) -> (out: Result<
    Option<StoredUser>,
    StorageError,
>)
    ensures
        match user_in_row(blob_of(row)) {
            Lookup::Found(t) => if t.deleted && !include_deleted {
                out matches Ok(None)
            } else {
                out matches Ok(Some(stored)) && stored@ == t
            },
            Lookup::Missing => out matches Ok(None),
            Lookup::Corrupt => out matches Err(StorageError::Corrupt(_)),
        },
{
    match read_user(row)? {
        Some(stored) => if stored.deleted && !include_deleted {
            Ok(None)
        } else {
            Ok(Some(stored))
        },
        None => Ok(None),
    }
}

/// The user of a row before and after an update. A deleted user stays deleted.
pub fn updated_user(
    user_uuid: &str,
    row: Option<Vec<u8>>,
    body: &[u8],
    index: &UserIndexFields,
) -> (out: Result<(StoredUser, StoredUser), StorageError>)
    ensures
        match user_in_row(blob_of(row)) {
            Lookup::Found(t) => out matches Ok((before, after)) && before@ == t && after@ == (
            UserView { body: body@, index: index@, ..t }),
            Lookup::Missing => out matches Err(StorageError::NotFound(text)) && text@
                == no_user_text(user_uuid@),
            Lookup::Corrupt => out matches Err(StorageError::Corrupt(_)),
        },
{
    match read_user(row)? {
        Some(before) => {
            let after = StoredUser {
                body: copy_bytes(body),
                index: index.copy(),
                deleted: before.deleted,
                deleted_at_unix: before.deleted_at_unix,
            };
            assert(after@ == (UserView { body: body@, index: index@, ..before@ }));
            Ok((before, after))
        },
        None => Err(no_user(user_uuid)),
    }
}

/// The user of a row before and after its deletion at `at_unix`.
pub fn deleted_user(user_uuid: &str, row: Option<Vec<u8>>, at_unix: i64) -> (out: Result<
    (StoredUser, StoredUser),
    StorageError,
>)
    ensures
        match user_in_row(blob_of(row)) {
            Lookup::Found(t) => out matches Ok((before, after)) && before@ == t && after@ == (
            UserView { deleted: true, deleted_at_unix: at_unix, ..t }),
            Lookup::Missing => out matches Err(StorageError::NotFound(text)) && text@
                == no_user_text(user_uuid@),
            Lookup::Corrupt => out matches Err(StorageError::Corrupt(_)),
        },
{
    match read_user(row)? {
        Some(before) => {
            let after = StoredUser {
                body: copy_bytes(before.body.as_slice()),
                index: before.index.copy(),
                deleted: true,
                deleted_at_unix: at_unix,
            };
            assert(after@ == (UserView { deleted: true, deleted_at_unix: at_unix, ..before@ }));
            Ok((before, after))
        },
        None => Err(no_user(user_uuid)),
    }
}

/// The values of a listing as text, in order.
pub fn texts_in_values(pairs: &Vec<(Vec<u8>, Vec<u8>)>) -> (out: Vec<String>)
    ensures
        texts_of(out@) == value_texts(pairs_of(pairs@)),
        utf8_is_kept(pairs_of(pairs@)),
{
    let ghost list = pairs_of(pairs@);
    let mut texts: Vec<String> = Vec::new();
    let mut i: usize = 0;
    while i < pairs.len()
        invariant
            i <= pairs@.len(),
            list == pairs_of(pairs@),
            texts@.len() == i,
            forall|j: int| 0 <= j < i ==> (#[trigger] texts@[j])@ == utf8_lossy(list[j].1),
            forall|j: int|
                0 <= j < i && valid_utf8((#[trigger] list[j]).1) ==> utf8_lossy(list[j].1)
                    == decode_utf8(list[j].1),
        decreases pairs@.len() - i,
    {
        texts.push(lossy_text(pairs[i].1.as_slice()));
        i = i + 1;
    }
    assert(texts_of(texts@) =~= value_texts(list));
    texts
}

impl Storage {
    /// The entities that an index lists under `value`, as text, in key order.
    pub fn scan_index_ids_str(&self, tree_name: &str, value: &[u8]) -> (out: Result<
        Vec<String>,
        StorageError,
    >)
        ensures
            out matches Ok(ids) ==> exists|list: Seq<(Seq<u8>, Seq<u8>)>|
                is_listing(self@, tree_name@, starting_with(index_prefix_of(value@)), list)
                    && texts_of(ids@) == #[trigger] value_texts(list) && utf8_is_kept(list),
            out matches Ok(ids) ==> forall|field: int|
                0 <= field < 3 && users_consistent(self@) && tree_name@ == #[trigger] user_tree(field)
                    && is_unmistakable(self@, field, value@) ==> are_users_with(
                    self@,
                    field,
                    value@,
                    texts_of(ids@),
                ),
            out matches Err(e) ==> e is Backend,
    {
        let prefix: Vec<u8> = index_prefix(value);
        let pairs: Vec<(Vec<u8>, Vec<u8>)> = self.list(tree_name, prefix.as_slice(), None)?;
        let ghost list = pairs_of(pairs@);
        assert(is_listing(self@, tree_name@, starting_with(index_prefix_of(value@)), list)) by {
            let all = choose|all: Seq<(Seq<u8>, Seq<u8>)>|
                is_listing(self@, tree_name@, starting_with(prefix@), all) && list
                    == #[trigger] at_most(all, None);
        }
        let ids: Vec<String> = texts_in_values(&pairs);
        proof {
            assert forall|field: int|
                0 <= field < 3 && users_consistent(self@) && tree_name@ == #[trigger] user_tree(field)
                    && is_unmistakable(self@, field, value@) implies are_users_with(
                self@,
                field,
                value@,
                texts_of(ids@),
            ) by {
                listing_gives_the_users(self@, field, value@, list);
            }
        }
        Ok(ids)
    }

    /// Creates a user under `user_uuid` from an encrypted body and plaintext index fields.
    pub fn create_user(&mut self, user_uuid: &str, body: &[u8], index: &UserIndexFields) -> (out:
        Result<(), StorageError>)
        ensures
            out is Ok ==> {
                &&& final(self)@ == user_created(old(self)@, user_uuid@, body@, index@)
                &&& lookup_user(final(self)@, user_uuid@) == Lookup::Found(new_user(body@, index@))
                &&& users_consistent(old(self)@) && is_plain(user_uuid@) && lookup_user(
                    old(self)@,
                    user_uuid@,
                ) is Missing ==> users_consistent(final(self)@)
            },
            out matches Err(e) ==> e is Backend,
    {
        let stored = StoredUser {
            body: copy_bytes(body),
            index: index.copy(),
            deleted: false,
            deleted_at_unix: 0,
        };
        self.write_user_row(user_uuid, &stored)?;
        self.write_user_indexes(user_uuid, index, true)?;
        proof {
            assert(stored@ == new_user(body@, index@));
            row_trees_apart();
            let entity = encode_utf8(user_uuid@);
            if is_entry(user_index_values(index@), entity, user_at(user_uuid@)) {
                user_entries_in_indexes(index@, entity, user_at(user_uuid@));
            }
            if users_consistent(old(self)@) && is_plain(user_uuid@) && lookup_user(
                old(self)@,
                user_uuid@,
            ) is Missing {
                creating_keeps_users_consistent(old(self)@, user_uuid@, body@, index@);
            }
        }
        Ok(())
    }

    /// Reads a stored user: `None` if it is missing, or deleted and `include_deleted` is not set.
    pub fn get_user(&self, user_uuid: &str, include_deleted: bool) -> (out: Result<
        Option<StoredUser>,
        StorageError,
    >)
        ensures
            match out {
                Ok(Some(u)) => lookup_user(self@, user_uuid@) == Lookup::Found(u@) && (u.deleted
                    ==> include_deleted),
                Ok(None) => lookup_user(self@, user_uuid@) is Missing || (lookup_user(
                    self@,
                    user_uuid@,
                ) matches Lookup::Found(u) && u.deleted && !include_deleted),
                Err(StorageError::Corrupt(_)) => lookup_user(self@, user_uuid@) is Corrupt,
                Err(e) => e is Backend,
            },
    {
        shown_user(self.user_row(user_uuid)?, include_deleted)
    }

    /// Updates an existing user and points its index entries anew. A deleted user stays deleted
    /// and out of the indexes.
    pub fn update_user(&mut self, user_uuid: &str, body: &[u8], index: &UserIndexFields) -> (out:
        Result<(), StorageError>)
        ensures
            match out {
                Ok(()) => lookup_user(old(self)@, user_uuid@) matches Lookup::Found(before) && {
                    let after = UserView { body: body@, index: index@, ..before };
                    &&& final(self)@ == user_rewritten(old(self)@, user_uuid@, before, after)
                    &&& lookup_user(final(self)@, user_uuid@) == Lookup::Found(after)
                    &&& users_consistent(old(self)@) ==> users_consistent(final(self)@)
                },
                Err(StorageError::NotFound(text)) => lookup_user(old(self)@, user_uuid@) is Missing
                    && text@ == no_user_text(user_uuid@) && final(self)@ == old(self)@,
                Err(StorageError::Corrupt(_)) => lookup_user(old(self)@, user_uuid@) is Corrupt
                    && final(self)@ == old(self)@,
                Err(StorageError::Backend(_)) => true,
            },
    {
        let (before, after): (StoredUser, StoredUser) = updated_user(
            user_uuid,
            self.user_row(user_uuid)?,
            body,
            index,
        )?;
        if !before.deleted {
            self.write_user_indexes(user_uuid, &before.index, false)?;
        }
        self.write_user_row(user_uuid, &after)?;
        if !after.deleted {
            self.write_user_indexes(user_uuid, index, true)?;
        }
        proof {
            rewritten_user_is_found(old(self)@, user_uuid@, before@, after@);
            if users_consistent(old(self)@) {
                rewriting_keeps_users_consistent(old(self)@, user_uuid@, before@, after@);
            }
        }
        Ok(())
    }

    /// Marks a user deleted at `at_unix` and takes it out of the indexes; its row stays.
    pub fn soft_delete_user(&mut self, user_uuid: &str, at_unix: i64) -> (out: Result<
        (),
        StorageError,
    >)
        ensures
            match out {
                Ok(()) => lookup_user(old(self)@, user_uuid@) matches Lookup::Found(before) && {
                    let after = UserView { deleted: true, deleted_at_unix: at_unix, ..before };
                    &&& final(self)@ == user_rewritten(old(self)@, user_uuid@, before, after)
                    &&& lookup_user(final(self)@, user_uuid@) == Lookup::Found(after)
                    &&& users_consistent(old(self)@) ==> users_consistent(final(self)@)
                },
                Err(StorageError::NotFound(text)) => lookup_user(old(self)@, user_uuid@) is Missing
                    && text@ == no_user_text(user_uuid@) && final(self)@ == old(self)@,
                Err(StorageError::Corrupt(_)) => lookup_user(old(self)@, user_uuid@) is Corrupt
                    && final(self)@ == old(self)@,
                Err(StorageError::Backend(_)) => true,
            },
    {
        let (before, after): (StoredUser, StoredUser) = deleted_user(
            user_uuid,
            self.user_row(user_uuid)?,
            at_unix,
        )?;
        if !before.deleted {
            self.write_user_indexes(user_uuid, &before.index, false)?;
        }
        self.write_user_row(user_uuid, &after)?;
        proof {
            rewritten_user_is_found(old(self)@, user_uuid@, before@, after@);
            if users_consistent(old(self)@) {
                rewriting_keeps_users_consistent(old(self)@, user_uuid@, before@, after@);
            }
        }
        Ok(())
    }
}

} // verus!
