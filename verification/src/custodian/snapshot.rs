//! Snapshots: every data collection, written out whole and read back into a storage.

use vstd::prelude::*;
use vstd::string::*;
use vstd::utf8::{encode_utf8, encode_utf8_decode_utf8, encode_utf8_valid_utf8};

use crate::custodian::log_store::{
    sm_read, sm_write, CustodianStore, ErrorSubject, ErrorVerb, MachineView, RaftStorageError,
};
use crate::db::storage::{
    are_data_names, are_tree_names, at_most, data_names_of, is_data_tree, listing_by_same_rule,
    utf8_lossy, Held, Storage, StorageError,
};
use crate::raft::types::{LogId, SnapshotMeta, StoredMembership};
use crate::record::json_error_text;
use crate::store;
use crate::store::{any_key, batch_writes, is_listing, pairs_of, starting_with};
use crate::text::{copy_bytes, dec, decimal, texts_of};

verus! {

/// An entry of a snapshot: a collection, a key in it and the value there.
pub type Item = (Seq<char>, Seq<u8>, Seq<u8>);

/// The views of a list of snapshot entries.
pub open spec fn items_of(v: Seq<(String, Vec<u8>, Vec<u8>)>) -> Seq<Item> {
    Seq::new(v.len(), |i: int| (v[i].0@, v[i].1@, v[i].2@))
}

/// The JSON bytes that `serde_json::to_vec` writes for a list of snapshot entries.
pub uninterp spec fn snapshot_json(items: Seq<Item>) -> Seq<u8>;

/// The list of snapshot entries that `serde_json::from_slice` reads from JSON bytes, if they hold
/// one.
pub uninterp spec fn snapshot_of(bytes: Seq<u8>) -> Option<Seq<Item>>;

/// Calls `serde_json::to_vec` on a list of triples. Writing strings and bytes into memory does not
/// fail, and what was written can be read back.
#[verifier::external_body]
fn write_items(items: &Vec<(String, Vec<u8>, Vec<u8>)>) -> (out: Result<Vec<u8>, serde_json::Error>)
    ensures
        match out {
            Ok(bytes) => bytes@ == snapshot_json(items_of(items@)) && snapshot_of(bytes@) == Some(
                items_of(items@),
            ),
            Err(_) => false,
        },
{
    serde_json::to_vec(items)
}

/// Calls `serde_json::from_slice` for a list of triples.
#[verifier::external_body]
fn read_items(bytes: &[u8]) -> (out: Result<Vec<(String, Vec<u8>, Vec<u8>)>, serde_json::Error>)
    ensures
        match out {
            Ok(items) => snapshot_of(bytes@) == Some(items_of(items@)),
            Err(_) => snapshot_of(bytes@) is None,
        },
{
    serde_json::from_slice(bytes)
}

/// A listing of a collection as snapshot entries.
pub open spec fn tagged(tree: Seq<char>, list: Seq<(Seq<u8>, Seq<u8>)>) -> Seq<Item> {
    Seq::new(list.len(), |i: int| (tree, list[i].0, list[i].1))
}

/// `part` holds the entries of one collection, in key order.
pub open spec fn is_tree_dump(held: Held, tree: Seq<char>, part: Seq<Item>) -> bool {
    exists|list: Seq<(Seq<u8>, Seq<u8>)>|
        is_listing(held, tree, any_key(), list) && part == #[trigger] tagged(tree, list)
}

/// `items` hold the entries of each of the collections, one after the other.
pub open spec fn is_dump(held: Held, names: Seq<Seq<char>>, items: Seq<Item>) -> bool
    decreases names.len(),
{
    if names.len() == 0 {
        items.len() == 0
    } else {
        exists|k: int|
            0 <= k <= items.len() && is_dump(held, names.drop_last(), #[trigger] items.take(k))
                && is_tree_dump(held, names.last(), items.skip(k))
    }
}

/// `items` are a snapshot of the storage: the entries of every data collection.
pub open spec fn is_snapshot(held: Held, items: Seq<Item>) -> bool {
    exists|names: Seq<Seq<u8>>|
        are_tree_names(held, names) && is_dump(held, #[trigger] data_names_of(names), items)
}

/// Storage after the entries of a snapshot were put into it.
pub open spec fn restored(held: Held, items: Seq<Item>) -> Held
    decreases items.len(),
{
    if items.len() == 0 {
        held
    } else {
        let (tree, key, value) = items.last();
        restored(held, items.drop_last()).insert((tree, key), value)
    }
}

/// What the data collections hold.
pub open spec fn data_part(held: Held) -> Held {
    Map::new(
        |at: (Seq<char>, Seq<u8>)| held.contains_key(at) && is_data_tree(encode_utf8(at.0)),
        |at: (Seq<char>, Seq<u8>)| held[at],
    )
}

/// The name of a snapshot that covers the log up to the given entry.
pub open spec fn snapshot_name(last: Option<LogId>) -> Seq<char> {
    match last {
        Some(id) => "snapshot-"@ + dec(id.leader_id.term as nat) + "-"@ + dec(id.index as nat),
        None => "snapshot-empty"@,
    }
}

/// What a dump holds, entry by entry.
pub proof fn dump_holds(held: Held, names: Seq<Seq<char>>, items: Seq<Item>)
    requires
        is_dump(held, names, items),
    ensures
        forall|i: int|
            0 <= i < items.len() ==> names.contains((#[trigger] items[i]).0) && held.contains_pair(
                (items[i].0, items[i].1),
                items[i].2,
            ),
        forall|tree: Seq<char>, key: Seq<u8>| #[trigger]
            held.contains_key((tree, key)) && names.contains(tree) ==> exists|i: int|
                0 <= i < items.len() && (#[trigger] items[i]).0 == tree && items[i].1 == key,
    decreases names.len(),
{
    if names.len() > 0 {
        let k = choose|k: int|
            0 <= k <= items.len() && is_dump(held, names.drop_last(), #[trigger] items.take(k))
                && is_tree_dump(held, names.last(), items.skip(k));
        let head = items.take(k);
        let part = items.skip(k);
        let tree = names.last();
        assert(is_tree_dump(held, tree, part));
        dump_holds(held, names.drop_last(), head);
        let list = choose|list: Seq<(Seq<u8>, Seq<u8>)>|
            is_listing(held, tree, any_key(), list) && part == #[trigger] tagged(tree, list);
        assert(list.len() == part.len());
        assert forall|i: int| 0 <= i < items.len() implies names.contains((#[trigger] items[i]).0)
            && held.contains_pair((items[i].0, items[i].1), items[i].2) by {
            if i < k {
                assert(head[i] == items[i]);
                let j = choose|j: int|
                    0 <= j < names.drop_last().len() && names.drop_last()[j] == items[i].0;
                assert(names[j] == items[i].0);
            } else {
                assert(part[i - k] == items[i]);
                assert(names[names.len() - 1] == tree);
                assert(any_key()(list[i - k].0));
            }
        }
        assert forall|t: Seq<char>, key: Seq<u8>| #[trigger]
            held.contains_key((t, key)) && names.contains(t) implies exists|i: int|
                0 <= i < items.len() && (#[trigger] items[i]).0 == t && items[i].1 == key by {
            if t == tree {
                assert(any_key()(key));
                assert(held.dom().contains((tree, key)));
                let i = choose|i: int| 0 <= i < list.len() && (#[trigger] list[i]).0 == key;
                assert(part[i].1 == key);
                assert(items[k + i] == part[i]);
            } else {
                let j = choose|j: int| 0 <= j < names.len() && names[j] == t;
                assert(names.drop_last()[j] == t);
                assert(names.drop_last().contains(t));
                let i = choose|i: int| 0 <= i < head.len() && (#[trigger] head[i]).0 == t && head[i].1 == key;
                assert(items[i] == head[i]);
            }
        }
    }
}

/// The names of the data collections among valid names.
proof fn data_names_hold(names: Seq<Seq<u8>>)
    ensures
        forall|n: Seq<u8>| names.contains(n) && is_data_tree(n) ==> data_names_of(names).contains(
            #[trigger] utf8_lossy(n),
        ),
    decreases names.len(),
{
    if names.len() > 0 {
        let rest = names.drop_last();
        data_names_hold(rest);
        assert forall|n: Seq<u8>| names.contains(n) && is_data_tree(n) implies data_names_of(
            names,
        ).contains(#[trigger] utf8_lossy(n)) by {
            let i = choose|i: int| 0 <= i < names.len() && names[i] == n;
            let all = data_names_of(names);
            if i == names.len() - 1 {
                assert(all[all.len() - 1] == utf8_lossy(n));
            } else {
                assert(rest[i] == n);
                let before = data_names_of(rest);
                let j = choose|j: int| 0 <= j < before.len() && before[j] == utf8_lossy(n);
                assert(all[j] == utf8_lossy(n));
            }
        }
    }
}

/// Putting entries that agree with a storage into an empty one gives just them.
proof fn restoring_agreeing_items(held: Held, items: Seq<Item>)
    requires
        forall|i: int|
            0 <= i < items.len() ==> held.contains_pair(
                ((#[trigger] items[i]).0, items[i].1),
                items[i].2,
            ),
    ensures
        ({
            let now = restored(Map::empty(), items);
            &&& forall|at: (Seq<char>, Seq<u8>)| #[trigger]
                now.contains_key(at) <==> exists|i: int|
                    0 <= i < items.len() && (#[trigger] items[i]).0 == at.0 && items[i].1 == at.1
            &&& forall|at: (Seq<char>, Seq<u8>)| #[trigger]
                now.contains_key(at) ==> now[at] == held[at]
        }),
    decreases items.len(),
{
    let now = restored(Map::empty(), items);
    if items.len() > 0 {
        let rest = items.drop_last();
        let before = restored(Map::empty(), rest);
        let last = items.last();
        assert forall|i: int| 0 <= i < rest.len() implies held.contains_pair(
            ((#[trigger] rest[i]).0, rest[i].1),
            rest[i].2,
        ) by {
            assert(rest[i] == items[i]);
        }
        restoring_agreeing_items(held, rest);
        assert(last == items[items.len() - 1]);
        assert forall|at: (Seq<char>, Seq<u8>)| #[trigger]
            now.contains_key(at) <==> exists|i: int|
                0 <= i < items.len() && (#[trigger] items[i]).0 == at.0 && items[i].1 == at.1 by {
            if before.contains_key(at) {
                let i = choose|i: int|
                    0 <= i < rest.len() && (#[trigger] rest[i]).0 == at.0 && rest[i].1 == at.1;
                assert(items[i] == rest[i]);
            }
            if exists|i: int|
                0 <= i < items.len() && (#[trigger] items[i]).0 == at.0 && items[i].1 == at.1 {
                let i = choose|i: int|
                    0 <= i < items.len() && (#[trigger] items[i]).0 == at.0 && items[i].1 == at.1;
                if i < rest.len() {
                    assert(rest[i] == items[i]);
                    assert(before.contains_key(at));
                } else {
                    assert(at == (last.0, last.1));
                }
            }
        }
    }
}

/// A snapshot put into an empty storage gives what the data collections that it was made from hold.
pub proof fn snapshot_carries_the_data(held: Held, names: Seq<Seq<u8>>, items: Seq<Item>)
    requires
        are_data_names(held, names, data_names_of(names)),
        is_dump(held, data_names_of(names), items),
    ensures
        restored(Map::empty(), items) == data_part(held),
{
    let data = data_names_of(names);
    dump_holds(held, data, items);
    data_names_hold(names);
    restoring_agreeing_items(held, items);
    let now = restored(Map::empty(), items);
    assert forall|at: (Seq<char>, Seq<u8>)| now.contains_key(at) == data_part(held).contains_key(
        at,
    ) by {
        if now.contains_key(at) {
            let i = choose|i: int|
                0 <= i < items.len() && (#[trigger] items[i]).0 == at.0 && items[i].1 == at.1;
            assert(data.contains(items[i].0));
            let j = choose|j: int| 0 <= j < data.len() && data[j] == at.0;
            assert(is_data_tree(encode_utf8(data[j])));
        }
        if data_part(held).contains_key(at) {
            assert(held.contains_key((at.0, at.1)));
            let n = encode_utf8(at.0);
            assert(names.contains(n));
            encode_utf8_valid_utf8(at.0);
            encode_utf8_decode_utf8(at.0);
            assert(utf8_lossy(n) == at.0);
            assert(data.contains(at.0));
        }
    }
    assert(now =~= data_part(held));
}

/// Storage without the entries of some collections.
pub open spec fn cleared(held: Held, names: Seq<Seq<char>>) -> Held {
    Map::new(
        |at: (Seq<char>, Seq<u8>)| held.contains_key(at) && !names.contains(at.0),
        |at: (Seq<char>, Seq<u8>)| held[at],
    )
}

/// What the collections beside the data hold: Raft's own and the default one.
pub open spec fn other_part(held: Held) -> Held {
    Map::new(
        |at: (Seq<char>, Seq<u8>)| held.contains_key(at) && !is_data_tree(encode_utf8(at.0)),
        |at: (Seq<char>, Seq<u8>)| held[at],
    )
}

/// Clearing every data collection leaves the others.
proof fn clearing_leaves_the_others(held: Held, names: Seq<Seq<u8>>)
    requires
        are_data_names(held, names, data_names_of(names)),
    ensures
        cleared(held, data_names_of(names)) == other_part(held),
{
    let data = data_names_of(names);
    data_names_hold(names);
    assert forall|at: (Seq<char>, Seq<u8>)| cleared(held, data).contains_key(at)
        == other_part(held).contains_key(at) by {
        if held.contains_key(at) && is_data_tree(encode_utf8(at.0)) {
            let n = encode_utf8(at.0);
            assert(held.contains_key((at.0, at.1)));
            assert(names.contains(n));
            encode_utf8_valid_utf8(at.0);
            encode_utf8_decode_utf8(at.0);
            assert(utf8_lossy(n) == at.0);
            assert(data.contains(at.0));
        }
        if data.contains(at.0) {
            let j = choose|j: int| 0 <= j < data.len() && data[j] == at.0;
            assert(is_data_tree(encode_utf8(data[j])));
        }
    }
    assert(cleared(held, data) =~= other_part(held));
}

/// Entries put over the collections beside the data are all the data there is afterwards, and
/// entries of data collections leave the collections beside it.
proof fn restoring_over_the_others(held: Held, items: Seq<Item>)
    ensures
        data_part(restored(other_part(held), items)) == data_part(restored(Map::empty(), items)),
        (forall|i: int| 0 <= i < items.len() ==> is_data_tree(encode_utf8((#[trigger] items[i]).0)))
            ==> other_part(restored(other_part(held), items)) == other_part(held),
    decreases items.len(),
{
    let now = restored(other_part(held), items);
    let alone = restored(Map::empty(), items);
    if items.len() > 0 {
        let rest = items.drop_last();
        restoring_over_the_others(held, rest);
        let before = restored(other_part(held), rest);
        let before_alone = restored(Map::<(Seq<char>, Seq<u8>), Seq<u8>>::empty(), rest);
        let last = items.last();
        assert(last == items[items.len() - 1]);
        assert forall|at: (Seq<char>, Seq<u8>)| #[trigger]
            data_part(now).dom().contains(at) == data_part(alone).dom().contains(at) && (data_part(
                now,
            ).dom().contains(at) ==> data_part(now)[at] == data_part(alone)[at]) by {
            assert(data_part(before).dom().contains(at) == data_part(before_alone).dom().contains(at));
            assert(now == before.insert((last.0, last.1), last.2));
            assert(alone == before_alone.insert((last.0, last.1), last.2));
            if data_part(before).dom().contains(at) {
                assert(data_part(before)[at] == data_part(before_alone)[at]);
                assert(before[at] == before_alone[at]);
            }
        }
        assert(data_part(now) =~= data_part(alone));
        if forall|i: int| 0 <= i < items.len() ==> is_data_tree(encode_utf8((#[trigger] items[i]).0)) {
            assert forall|i: int| 0 <= i < rest.len() implies is_data_tree(
                encode_utf8((#[trigger] rest[i]).0),
            ) by {
                assert(rest[i] == items[i]);
            }
            assert forall|at: (Seq<char>, Seq<u8>)|
                other_part(now).contains_key(at) == other_part(held).contains_key(at) && (other_part(
                    now,
                ).contains_key(at) ==> other_part(now)[at] == other_part(held)[at]) by {
                assert(other_part(before).contains_key(at) == other_part(held).contains_key(at));
                if other_part(before).contains_key(at) {
                    assert(other_part(before)[at] == other_part(held)[at]);
                }
            }
            assert(other_part(now) =~= other_part(held));
        }
    } else {
        assert(other_part(now) =~= other_part(held));
        assert(data_part(now) =~= data_part(alone));
    }
}

/// A snapshot that was built and put into another storage makes the data there the same as where
/// it was built, whatever data was there before.
pub proof fn installing_copies_the_data(
    source: Held,
    target: Held,
    names: Seq<Seq<u8>>,
    items: Seq<Item>,
)
    requires
        are_data_names(source, names, data_names_of(names)),
        is_dump(source, data_names_of(names), items),
    ensures
        data_part(restored(other_part(target), items)) == data_part(source),
        other_part(restored(other_part(target), items)) == other_part(target),
{
    snapshot_carries_the_data(source, names, items);
    dump_holds(source, data_names_of(names), items);
    assert forall|i: int| 0 <= i < items.len() implies is_data_tree(
        encode_utf8((#[trigger] items[i]).0),
    ) by {
        let data = data_names_of(names);
        assert(data.contains(items[i].0));
        let j = choose|j: int| 0 <= j < data.len() && data[j] == items[i].0;
        assert(is_data_tree(encode_utf8(data[j])));
    }
    restoring_over_the_others(target, items);
    assert(data_part(data_part(source)) =~= data_part(source));
}

/// A snapshot that was built.
pub struct Snapshot {
    pub meta: SnapshotMeta,
    pub data: Vec<u8>,
}

/// The entries of the data collections, collection after collection.
pub fn dump_collections(storage: &Storage, names: &Vec<String>) -> (out: Result<
    Vec<(String, Vec<u8>, Vec<u8>)>,
    StorageError,
>)
    ensures
        out matches Ok(items) ==> is_dump(storage@, texts_of(names@), items_of(items@)),
        out matches Err(e) ==> e is Backend,
        names@.len() == 0 ==> out is Ok,
{
    let mut items: Vec<(String, Vec<u8>, Vec<u8>)> = Vec::new();
    let empty: Vec<u8> = Vec::new();
    let mut i: usize = 0;
    let ghost all = texts_of(names@);
    while i < names.len()
        invariant
            i <= names@.len(),
            all == texts_of(names@),
            empty@.len() == 0,
            is_dump(storage@, all.take(i as int), items_of(items@)),
        decreases names@.len() - i,
    {
        let name = &names[i];
        let pairs: Vec<(Vec<u8>, Vec<u8>)> = storage.list(name.as_str(), empty.as_slice(), None)?;
        let ghost list = pairs_of(pairs@);
        proof {
            let whole = choose|whole: Seq<(Seq<u8>, Seq<u8>)>|
                is_listing(storage@, name@, starting_with(empty@), whole) && list
                    == #[trigger] at_most(whole, None);
            assert forall|key: Seq<u8>| #[trigger] starting_with(empty@)(key) == any_key()(key) by {
                assert(empty@ =~= key.take(0));
            }
            listing_by_same_rule(storage@, name@, starting_with(empty@), any_key(), whole);
        }
        let ghost before = items_of(items@);
        let mut j: usize = 0;
        assert(before + tagged(name@, list.take(0)) =~= before);
        while j < pairs.len()
            invariant
                j <= pairs@.len(),
                list == pairs_of(pairs@),
                items_of(items@) == before + tagged(name@, list.take(j as int)),
            decreases pairs@.len() - j,
        {
            let ghost so_far = items_of(items@);
            items.push(
                (
                    name.clone(),
                    copy_bytes(pairs[j].0.as_slice()),
                    copy_bytes(pairs[j].1.as_slice()),
                ),
            );
            assert(items_of(items@) =~= so_far.push((name@, list[j as int].0, list[j as int].1)));
            assert(tagged(name@, list.take(j + 1)) =~= tagged(name@, list.take(j as int)).push(
                (name@, list[j as int].0, list[j as int].1),
            ));
            assert(items_of(items@) =~= before + tagged(name@, list.take(j + 1)));
            j = j + 1;
        }
        proof {
            assert(list.take(j as int) =~= list);
            let now = items_of(items@);
            let k = before.len() as int;
            assert(now.take(k) =~= before);
            assert(now.skip(k) =~= tagged(name@, list));
            assert(all.take(i + 1).drop_last() =~= all.take(i as int));
            assert(all.take(i + 1).last() == name@);
            assert(is_tree_dump(storage@, name@, now.skip(k)));
            assert(is_dump(storage@, all.take(i + 1), now));
        }
        i = i + 1;
    }
    assert(all.take(i as int) =~= all);
    Ok(items)
}

impl Snapshot {
    /// The snapshot of the given entries, which covers the log up to the given entry.
    pub fn of_items(
        items: &Vec<(String, Vec<u8>, Vec<u8>)>,
        last_applied: Option<LogId>,
        membership: &StoredMembership,
    ) -> (out: Result<Self, StorageError>)
        ensures
            out matches Ok(snapshot) && {
                &&& snapshot.data@ == snapshot_json(items_of(items@))
                &&& snapshot_of(snapshot.data@) == Some(items_of(items@))
                &&& snapshot.meta.last_log_id == last_applied
                &&& snapshot.meta.last_membership@ == membership@
                &&& snapshot.meta.snapshot_id@ == snapshot_name(last_applied)
            },
    {
        let data: Vec<u8> = match write_items(items) {
            Ok(data) => data,
            Err(e) => {
                return Err(StorageError::Corrupt(json_error_text(&e)));
            },
        };
        let snapshot_id: String = match last_applied {
            Some(id) => {
                let mut text: String = "snapshot-".to_owned();
                text.append(decimal(id.leader_id.term).as_str());
                text.append("-");
                text.append(decimal(id.index).as_str());
                text
            },
            None => "snapshot-empty".to_owned(),
        };
        Ok(
            Snapshot {
                meta: SnapshotMeta {
                    last_log_id: last_applied,
                    last_membership: membership.copy(),
                    snapshot_id,
                },
                data,
            },
        )
    }
}

/// Removes every entry of a collection.
fn clear_collection(storage: &mut Storage, name: &str) -> (out: Result<(), StorageError>)
    ensures
        out is Ok ==> final(storage)@ == cleared(old(storage)@, seq![name@]),
        out matches Err(e) ==> e is Backend,
{
    let empty: Vec<u8> = Vec::new();
    let pairs: Vec<(Vec<u8>, Vec<u8>)> = storage.list(name, empty.as_slice(), None)?;
    let ghost list = pairs_of(pairs@);
    let ghost held = storage@;
    let mut batch: sled::Batch = store::new_batch();
    let mut i: usize = 0;
    while i < pairs.len()
        invariant
            i <= pairs@.len(),
            list == pairs_of(pairs@),
            forall|key: Seq<u8>| #[trigger]
                batch_writes(batch).contains_key(key) <==> exists|j: int|
                    0 <= j < i && (#[trigger] list[j]).0 == key,
            forall|key: Seq<u8>| #[trigger]
                batch_writes(batch).contains_key(key) ==> batch_writes(batch)[key] is None,
        decreases pairs@.len() - i,
    {
        let ghost before = batch_writes(batch);
        store::batch_remove(&mut batch, pairs[i].0.as_slice());
        assert forall|key: Seq<u8>| #[trigger]
            batch_writes(batch).contains_key(key) <==> exists|j: int|
                0 <= j < i + 1 && (#[trigger] list[j]).0 == key by {
            if key == list[i as int].0 {
            } else if before.contains_key(key) {
                let j = choose|j: int| 0 <= j < i && (#[trigger] list[j]).0 == key;
                assert(0 <= j < i + 1 && list[j].0 == key);
            }
        }
        i = i + 1;
    }
    storage.write_batch(name, batch)?;
    proof {
        let whole = choose|whole: Seq<(Seq<u8>, Seq<u8>)>|
            is_listing(held, name@, starting_with(empty@), whole) && list
                == #[trigger] at_most(whole, None);
        assert forall|at: (Seq<char>, Seq<u8>)| storage@.contains_key(at) == cleared(
            held,
            seq![name@],
        ).contains_key(at) by {
            assert(seq![name@].contains(at.0) <==> at.0 == name@) by {
                assert(seq![name@][0] == name@);
            }
            if at.0 == name@ && held.contains_key(at) {
                assert(held.dom().contains((name@, at.1)));
                assert(empty@ =~= at.1.take(0));
                assert(starting_with(empty@)(at.1));
                let j = choose|j: int| 0 <= j < whole.len() && (#[trigger] whole[j]).0 == at.1;
                assert(list[j].0 == at.1);
                assert(batch_writes(batch).contains_key(at.1));
            }
        }
        assert forall|at: (Seq<char>, Seq<u8>)| storage@.contains_key(at) implies storage@[at]
            == held[at] by {
            assert(!(at.0 == name@ && batch_writes(batch).contains_key(at.1)));
        }
        assert(storage@ =~= cleared(held, seq![name@]));
    }
    Ok(())
}

/// Clears the named collections and then puts entries into storage.
pub fn replace_collections(
    storage: &mut Storage,
    names: &Vec<String>,
    items: &Vec<(String, Vec<u8>, Vec<u8>)>,
) -> (out: Result<(), StorageError>)
    ensures
        out is Ok ==> final(storage)@ == restored(
            cleared(old(storage)@, texts_of(names@)),
            items_of(items@),
        ),
        out matches Err(e) ==> e is Backend,
        names@.len() == 0 && items@.len() == 0 ==> out is Ok,
{
    let ghost held = storage@;
    let ghost gone = texts_of(names@);
    let mut i: usize = 0;
    assert(cleared(held, gone.take(0)) =~= held);
    while i < names.len()
        invariant
            i <= names@.len(),
            gone == texts_of(names@),
            storage@ == cleared(held, gone.take(i as int)),
        decreases names@.len() - i,
    {
        let ghost before = storage@;
        clear_collection(storage, names[i].as_str())?;
        proof {
            let longer = gone.take(i + 1);
            let shorter = gone.take(i as int);
            let name = gone[i as int];
            assert forall|t: Seq<char>| #[trigger] longer.contains(t) <==> shorter.contains(t) || seq![name].contains(t) by {
                assert(seq![name][0] == name);
                assert(longer[i as int] == name);
                if longer.contains(t) {
                    let j = choose|j: int| 0 <= j < longer.len() && longer[j] == t;
                    if j < i {
                        assert(shorter[j] == t);
                    }
                }
                if shorter.contains(t) {
                    let j = choose|j: int| 0 <= j < shorter.len() && shorter[j] == t;
                    assert(longer[j] == t);
                }
            }
            assert(storage@ =~= cleared(held, longer));
        }
        i = i + 1;
    }
    assert(gone.take(i as int) =~= gone);
    let ghost bare = storage@;
    let ghost all = items_of(items@);
    let mut j: usize = 0;
    assert(all.take(0) =~= Seq::empty());
    while j < items.len()
        invariant
            j <= items@.len(),
            all == items_of(items@),
            storage@ == restored(bare, all.take(j as int)),
        decreases items@.len() - j,
    {
        storage.put(items[j].0.as_str(), items[j].1.as_slice(), items[j].2.as_slice())?;
        assert(all.take(j + 1).drop_last() =~= all.take(j as int));
        j = j + 1;
    }
    assert(all.take(j as int) =~= all);
    Ok(())
}

impl CustodianStore {
    /// Writes out every data collection, so that a snapshot covers collections that are added.
    pub fn build_snapshot(&self) -> (out: Result<Snapshot, RaftStorageError>)
        ensures
            match out {
                Ok(snapshot) => {
                    &&& snapshot_of(snapshot.data@) matches Some(items) && is_snapshot(
                        self@.held,
                        items,
                    ) && snapshot.data@ == snapshot_json(items) && restored(Map::empty(), items)
                        == data_part(self@.held)
                    &&& snapshot.meta.last_log_id == self@.last_applied
                    &&& snapshot.meta.last_membership@ == self@.membership
                    &&& snapshot.meta.snapshot_id@ == snapshot_name(self@.last_applied)
                },
                Err(e) => e.subject == ErrorSubject::StateMachine && e.verb == ErrorVerb::Read
                    && e.cause is Backend,
            },
    {
        let names: Vec<String> = self.state_machine.storage.data_tree_names();
        let items: Vec<(String, Vec<u8>, Vec<u8>)> = match dump_collections(
            &self.state_machine.storage,
            &names,
        ) {
            Ok(items) => items,
            Err(e) => {
                return Err(sm_read(e));
            },
        };
        proof {
            let raw = choose|raw: Seq<Seq<u8>>|
                are_data_names(self@.held, raw, texts_of(names@))
                    && #[trigger] data_names_of(raw) == texts_of(names@);
            snapshot_carries_the_data(self@.held, raw, items_of(items@));
        }
        match Snapshot::of_items(
            &items,
            self.state_machine.last_applied_log,
            &self.state_machine.last_membership,
        ) {
            Ok(snapshot) => Ok(snapshot),
            Err(e) => Err(sm_write(e)),
        }
    }

    /// Clears the data collections, puts the entries of a snapshot into storage and takes over what
    /// it covers. Raft's own collections stay, unless the snapshot names them.
    pub fn install_snapshot(&mut self, meta: &SnapshotMeta, data: &[u8]) -> (out: Result<
        (),
        RaftStorageError,
    >)
        ensures
            final(self).raft_storage == old(self).raft_storage,
            match snapshot_of(data@) {
                None => out matches Err(e) && e.cause is Corrupt && e.subject
                    == ErrorSubject::Snapshot(meta.last_log_id, meta.snapshot_id) && e.verb
                    == ErrorVerb::Read && final(self)@ == old(self)@,
                Some(items) => match out {
                    Ok(()) => {
                        &&& final(self)@ == (MachineView {
                            held: restored(other_part(old(self)@.held), items),
                            last_applied: meta.last_log_id,
                            membership: meta.last_membership@,
                            ..old(self)@
                        })
                        &&& data_part(final(self)@.held) == data_part(
                            restored(Map::empty(), items),
                        )
                        &&& (forall|i: int|
                            0 <= i < items.len() ==> is_data_tree(
                                encode_utf8((#[trigger] items[i]).0),
                            )) ==> other_part(final(self)@.held) == other_part(old(self)@.held)
                    },
                    Err(e) => e.cause is Backend && e.subject == ErrorSubject::StateMachine
                        && e.verb == ErrorVerb::Write,
                },
            },
    {
        let items: Vec<(String, Vec<u8>, Vec<u8>)> = match read_items(data) {
            Ok(items) => items,
            Err(e) => {
                return Err(
                    RaftStorageError {
                        subject: ErrorSubject::Snapshot(
                            meta.last_log_id,
                            meta.snapshot_id.clone(),
                        ),
                        verb: ErrorVerb::Read,
                        cause: StorageError::Corrupt(json_error_text(&e)),
                    },
                );
            },
        };
        let names: Vec<String> = self.state_machine.storage.data_tree_names();
        match replace_collections(&mut self.state_machine.storage, &names, &items) {
            Ok(()) => {},
            Err(e) => {
                return Err(sm_write(e));
            },
        }
        proof {
            let raw = choose|raw: Seq<Seq<u8>>|
                are_data_names(old(self)@.held, raw, texts_of(names@))
                    && #[trigger] data_names_of(raw) == texts_of(names@);
            clearing_leaves_the_others(old(self)@.held, raw);
            restoring_over_the_others(old(self)@.held, items_of(items@));
        }
        self.state_machine.last_applied_log = meta.last_log_id;
        self.state_machine.last_membership = meta.last_membership.copy();
        Ok(())
    }
}

} // verus!
