//! The embedded database: named trees of byte strings, kept by `sled`.
//!
//! Everything here is a call into `sled`, stated over what the database holds. The statements are
//! about one process that writes through one handle: a database is moved, never cloned.

use vstd::prelude::*;
use vstd::utf8::encode_utf8;

use crate::bytes::{be8, counter_after, lex_lt, next_counter};

verus! {

#[verifier::external_type_specification]
#[verifier::external_body]
pub struct ExDb(sled::Db);

#[verifier::external_type_specification]
#[verifier::external_body]
pub struct ExSledError(sled::Error);

#[verifier::external_type_specification]
#[verifier::external_body]
pub struct ExBatch(sled::Batch);

/// What a database holds: a value for each pair of a tree's name and a key in that tree.
///
/// A tree without entries and a tree that was never opened hold the same: nothing.
pub uninterp spec fn entries(db: sled::Db) -> Map<(Seq<char>, Seq<u8>), Seq<u8>>;

/// The directory that a database was opened in; `None` for a temporary one, whose files are deleted
/// when it is dropped.
pub uninterp spec fn directory(db: sled::Db) -> Option<Seq<char>>;

/// The writes that a batch collects: a new value, or `None` for a removal.
pub uninterp spec fn batch_writes(batch: sled::Batch) -> Map<Seq<u8>, Option<Seq<u8>>>;

/// A database without entries.
pub open spec fn holds_nothing(held: Map<(Seq<char>, Seq<u8>), Seq<u8>>) -> bool {
    held == Map::<(Seq<char>, Seq<u8>), Seq<u8>>::empty()
}

/// A batch without writes.
pub open spec fn writes_nothing(writes: Map<Seq<u8>, Option<Seq<u8>>>) -> bool {
    writes == Map::<Seq<u8>, Option<Seq<u8>>>::empty()
}

/// The views of a list of key-value pairs.
pub open spec fn pairs_of(v: Seq<(Vec<u8>, Vec<u8>)>) -> Seq<(Seq<u8>, Seq<u8>)> {
    Seq::new(v.len(), |i: int| (v[i].0@, v[i].1@))
}

/// Every key.
pub open spec fn any_key() -> spec_fn(Seq<u8>) -> bool {
    |key: Seq<u8>| true
}

/// The keys that begin with `prefix`.
pub open spec fn starting_with(prefix: Seq<u8>) -> spec_fn(Seq<u8>) -> bool {
    |key: Seq<u8>| prefix.is_prefix_of(key)
}

/// The keys that do not come before `start`.
pub open spec fn not_before(start: Seq<u8>) -> spec_fn(Seq<u8>) -> bool {
    |key: Seq<u8>| !lex_lt(key, start)
}

/// The keys that do not come after `end`.
pub open spec fn not_after(end: Seq<u8>) -> spec_fn(Seq<u8>) -> bool {
    |key: Seq<u8>| !lex_lt(end, key)
}

/// `list` holds the entries of `tree` whose keys pass `keep`, each once, in key order.
pub open spec fn is_listing(
    held: Map<(Seq<char>, Seq<u8>), Seq<u8>>,
    tree: Seq<char>,
    keep: spec_fn(Seq<u8>) -> bool,
    list: Seq<(Seq<u8>, Seq<u8>)>,
) -> bool {
    &&& forall|i: int, j: int| 0 <= i < j < list.len() ==> lex_lt(#[trigger] list[i].0, #[trigger] list[j].0)
    &&& forall|i: int|
        0 <= i < list.len() ==> keep(#[trigger] list[i].0) && held.contains_pair(
            (tree, list[i].0),
            list[i].1,
        )
    &&& forall|key: Seq<u8>| #[trigger]
        held.dom().contains((tree, key)) && keep(key) ==> exists|i: int|
            0 <= i < list.len() && (#[trigger] list[i]).0 == key
}

/// What a database holds after `writes` went to `tree`.
pub open spec fn after_writes(
    held: Map<(Seq<char>, Seq<u8>), Seq<u8>>,
    tree: Seq<char>,
    writes: Map<Seq<u8>, Option<Seq<u8>>>,
) -> Map<(Seq<char>, Seq<u8>), Seq<u8>> {
    Map::new(
        |at: (Seq<char>, Seq<u8>)|
            if at.0 == tree && writes.contains_key(at.1) {
                writes[at.1] is Some
            } else {
                held.contains_key(at)
            },
        |at: (Seq<char>, Seq<u8>)|
            if at.0 == tree && writes.contains_key(at.1) {
                writes[at.1]->0
            } else {
                held[at]
            },
    )
}

/// Calls `sled::open`: the database that comes back is the one in the directory `path`. What the
/// directory holds is not known before it is read, so nothing is said of the entries, nor of when
/// opening fails.
#[verifier::external_body]
pub(crate) fn open_at(path: &str) -> (out: Result<sled::Db, sled::Error>)
    ensures
        out matches Ok(db) ==> directory(db) == Some(path@),
{
    sled::open(path)
}

/// Calls `sled::Config::open` on a temporary configuration: the database that comes back is new
/// and holds nothing, and it is temporary.
#[verifier::external_body]
pub(crate) fn open_temporary() -> (out: Result<sled::Db, sled::Error>)
    ensures
        out matches Ok(db) ==> holds_nothing(entries(db)) && directory(db) is None,
{
    sled::Config::new().temporary(true).open()
}

/// Calls `sled::Tree::insert` on the tree named `tree`: where it succeeds, the key holds the value
/// and nothing else has changed.
#[verifier::external_body]
pub(crate) fn insert(db: &mut sled::Db, tree: &str, key: &[u8], value: &[u8]) -> (out: Result<
    (),
    sled::Error,
>)
    ensures
        out is Ok ==> entries(*final(db)) == entries(*old(db)).insert((tree@, key@), value@),
{
    db.open_tree(tree)?.insert(key, value)?;
    Ok(())
}

/// Calls `sled::Tree::remove` on the tree named `tree`: where it succeeds, the key holds nothing
/// and nothing else has changed.
#[verifier::external_body]
pub(crate) fn remove(db: &mut sled::Db, tree: &str, key: &[u8]) -> (out: Result<(), sled::Error>)
    ensures
        out is Ok ==> entries(*final(db)) == entries(*old(db)).remove((tree@, key@)),
{
    db.open_tree(tree)?.remove(key)?;
    Ok(())
}

/// Calls `sled::Tree::flush` on the tree named `tree`: writes go to disk, and what the database
/// holds stays as it is.
#[verifier::external_body]
pub(crate) fn flush(db: &mut sled::Db, tree: &str) -> (out: Result<(), sled::Error>)
    ensures
        out is Ok ==> entries(*final(db)) == entries(*old(db)),
{
    db.open_tree(tree)?.flush()?;
    Ok(())
}

/// Calls `sled::Tree::get` on the tree named `tree`: the value of the key, if it has one.
#[verifier::external_body]
pub(crate) fn get(db: &sled::Db, tree: &str, key: &[u8]) -> (out: Result<
    Option<Vec<u8>>,
    sled::Error,
>)
    ensures
        out matches Ok(Some(value)) ==> entries(*db).contains_pair((tree@, key@), value@),
        out matches Ok(None) ==> !entries(*db).contains_key((tree@, key@)),
{
    Ok(db.open_tree(tree)?.get(key)?.map(|value| value.to_vec()))
}

/// Calls `sled::Tree::contains_key` on the tree named `tree`: whether the key has a value.
#[verifier::external_body]
pub(crate) fn contains_key(db: &sled::Db, tree: &str, key: &[u8]) -> (out: Result<
    bool,
    sled::Error,
>)
    ensures
        out matches Ok(found) ==> found == entries(*db).contains_key((tree@, key@)),
{
    db.open_tree(tree)?.contains_key(key)
}

/// Calls `sled::Tree::iter` on the tree named `tree`: all its entries in key order.
#[verifier::external_body]
pub(crate) fn list_all(db: &sled::Db, tree: &str) -> (out: Result<
    Vec<(Vec<u8>, Vec<u8>)>,
    sled::Error,
>)
    ensures
        out matches Ok(list) ==> is_listing(
            entries(*db),
            tree@,
            any_key(),
            pairs_of(list@),
        ),
{
    let tree = db.open_tree(tree)?;
    tree.iter().map(|item| item.map(|(k, v)| (k.to_vec(), v.to_vec()))).collect()
}

/// Calls `sled::Tree::scan_prefix` on the tree named `tree`: the entries whose keys begin with
/// `prefix`, in key order.
#[verifier::external_body]
pub(crate) fn list_prefix(db: &sled::Db, tree: &str, prefix: &[u8]) -> (out: Result<
    Vec<(Vec<u8>, Vec<u8>)>,
    sled::Error,
>)
    ensures
        out matches Ok(list) ==> is_listing(
            entries(*db),
            tree@,
            starting_with(prefix@),
            pairs_of(list@),
        ),
{
    let tree = db.open_tree(tree)?;
    tree.scan_prefix(prefix).map(|item| item.map(|(k, v)| (k.to_vec(), v.to_vec()))).collect()
}

/// Calls `sled::Tree::range` on the tree named `tree`, from `start` on: the entries whose keys do
/// not come before `start`, in key order.
#[verifier::external_body]
pub(crate) fn list_from(db: &sled::Db, tree: &str, start: &[u8]) -> (out: Result<
    Vec<(Vec<u8>, Vec<u8>)>,
    sled::Error,
>)
    ensures
        out matches Ok(list) ==> is_listing(
            entries(*db),
            tree@,
            not_before(start@),
            pairs_of(list@),
        ),
{
    let tree = db.open_tree(tree)?;
    tree.range(start..).map(|item| item.map(|(k, v)| (k.to_vec(), v.to_vec()))).collect()
}

/// Calls `sled::Tree::range` on the tree named `tree`, through `end`: the entries whose keys do
/// not come after `end`, in key order.
#[verifier::external_body]
pub(crate) fn list_through(db: &sled::Db, tree: &str, end: &[u8]) -> (out: Result<
    Vec<(Vec<u8>, Vec<u8>)>,
    sled::Error,
>)
    ensures
        out matches Ok(list) ==> is_listing(
            entries(*db),
            tree@,
            not_after(end@),
            pairs_of(list@),
        ),
{
    let tree = db.open_tree(tree)?;
    tree.range(..=end).map(|item| item.map(|(k, v)| (k.to_vec(), v.to_vec()))).collect()
}

/// Calls `sled::Tree::update_and_fetch` on the tree named `tree` with the counter's step: where it
/// succeeds, the key holds the next counter value, which is also what comes back.
#[verifier::external_body]
pub(crate) fn advance_counter(db: &mut sled::Db, tree: &str, key: &[u8]) -> (out: Result<
    Option<Vec<u8>>,
    sled::Error,
>)
    ensures
        out matches Ok(fetched) ==> {
            let held = entries(*old(db));
            let at = (tree@, key@);
            let next = be8(counter_after(if held.contains_key(at) { Some(held[at]) } else { None }));
            &&& fetched matches Some(bytes) && bytes@ == next
            &&& entries(*final(db)) == held.insert(at, next)
        },
{
    let tree = db.open_tree(tree)?;
    Ok(tree.update_and_fetch(key, |old| Some(next_counter(old)))?.map(|v| v.to_vec()))
}

/// Calls `sled::Batch::default`: a batch without writes.
#[verifier::external_body]
pub(crate) fn new_batch() -> (out: sled::Batch)
    ensures
        writes_nothing(batch_writes(out)),
{
    sled::Batch::default()
}

/// Calls `sled::Batch::insert`: the batch will set the key, whatever it said of it before.
#[verifier::external_body]
pub(crate) fn batch_insert(batch: &mut sled::Batch, key: &[u8], value: &[u8])
    ensures
        batch_writes(*final(batch)) == batch_writes(*old(batch)).insert(key@, Some(value@)),
{
    batch.insert(key, value)
}

/// Calls `sled::Batch::remove`: the batch will remove the key, whatever it said of it before.
#[verifier::external_body]
pub(crate) fn batch_remove(batch: &mut sled::Batch, key: &[u8])
    ensures
        batch_writes(*final(batch)) == batch_writes(*old(batch)).insert(key@, None),
{
    batch.remove(key)
}

/// Calls `sled::Tree::apply_batch` on the tree named `tree`: where it succeeds, all writes of the
/// batch are done and nothing else has changed.
#[verifier::external_body]
pub(crate) fn apply_batch(db: &mut sled::Db, tree: &str, batch: sled::Batch) -> (out: Result<
    (),
    sled::Error,
>)
    ensures
        out is Ok ==> entries(*final(db)) == after_writes(
            entries(*old(db)),
            tree@,
            batch_writes(batch),
        ),
{
    db.open_tree(tree)?.apply_batch(batch)
}

/// Calls `sled::Db::tree_names`: the names of the open trees as bytes, each once, in no stated
/// order. Every tree with an entry is among them; which empty trees are depends on what was opened.
#[verifier::external_body]
pub(crate) fn tree_names(db: &sled::Db) -> (out: Vec<Vec<u8>>)
    ensures
        forall|i: int, j: int| 0 <= i < j < out@.len() ==> (#[trigger] out@[i])@ != (#[trigger] out@[j])@,
        forall|tree: Seq<char>, key: Seq<u8>| #[trigger]
            entries(*db).contains_key((tree, key)) ==> exists|i: int|
                0 <= i < out@.len() && (#[trigger] out@[i])@ == encode_utf8(tree),
{
    db.tree_names().into_iter().map(|name| name.to_vec()).collect()
}

/// Calls `to_string` on a `sled::Error`. The text tells what went wrong on the machine, so nothing
/// is said of it.
#[verifier::external_body]
pub(crate) fn error_text(error: &sled::Error) -> (out: String) {
    error.to_string()
}

} // verus!
