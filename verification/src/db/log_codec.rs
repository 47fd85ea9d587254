//! The stored form of replicated operations.

use vstd::prelude::*;

use crate::db::log::{LogEntry, LogEntryView};
use crate::db::rows::{TicketIndexFields, TicketIndexView, UserIndexFields, UserIndexView};
use crate::raft::codec::Command;
use crate::record::{blobs_of, opt_texts, Record, RecordView};
use crate::store::pairs_of;
use crate::text::{copy_bytes, copy_text, text_of};

verus! {

/// Pairs as one list: each key before its value.
pub open spec fn flat(pairs: Seq<(Seq<u8>, Seq<u8>)>) -> Seq<Seq<u8>> {
    Seq::new(
        pairs.len() * 2,
        |i: int|
            if i % 2 == 0 {
                pairs[i / 2].0
            } else {
                pairs[i / 2].1
            },
    )
}

/// The pairs of a list in which each key stands before its value.
pub open spec fn paired(list: Seq<Seq<u8>>) -> Seq<(Seq<u8>, Seq<u8>)> {
    Seq::new(list.len() / 2, |i: int| (list[2 * i], list[2 * i + 1]))
}

/// The record with the given lists and no groups.
pub open spec fn plain_record(
    counts: Seq<u64>,
    stamps: Seq<i64>,
    texts: Seq<Option<Seq<char>>>,
    blobs: Seq<Seq<u8>>,
) -> RecordView {
    RecordView { counts, groups: Seq::empty(), stamps, texts, blobs }
}

/// The texts of a ticket's index fields.
pub open spec fn ticket_texts(ix: TicketIndexView) -> Seq<Option<Seq<char>>> {
    seq![Some(ix.account_uuid), ix.assigned_to_uuid, Some(ix.project), ix.tracking_url]
}

/// The index fields of a ticket with the given status, from the stamps and texts of a record.
pub open spec fn ticket_index_in(r: RecordView, status: u64) -> Option<TicketIndexView> {
    if status <= u8::MAX && r.stamps.len() == 2 && r.texts.len() == 4 && r.texts[0] is Some
        && r.texts[2] is Some && r.blobs.len() == 1 {
        Some(
            TicketIndexView {
                status: status as u8,
                account_uuid: r.texts[0]->0,
                assigned_to_uuid: r.texts[1],
                project: r.texts[2]->0,
                tracking_url: r.texts[3],
                created_at_unix: r.stamps[0],
                updated_at_unix: r.stamps[1],
            },
        )
    } else {
        None
    }
}

/// The id and index fields of a user with the given role, from the texts of a record.
pub open spec fn user_index_in(r: RecordView, role: u64) -> Option<(Seq<char>, UserIndexView)> {
    if role <= u8::MAX && r.stamps.len() == 0 && r.texts.len() == 3 && r.texts[0] is Some
        && r.texts[1] is Some && r.texts[2] is Some && r.blobs.len() == 1 {
        Some(
            (
                r.texts[0]->0,
                UserIndexView {
                    username: r.texts[1]->0,
                    email: r.texts[2]->0,
                    role: role as u8,
                },
            ),
        )
    } else {
        None
    }
}

/// The one text of a record without stamps.
pub open spec fn collection_in(r: RecordView) -> Option<Seq<char>> {
    if r.counts.len() == 1 && r.stamps.len() == 0 && r.texts.len() == 1 {
        r.texts[0]
    } else {
        None
    }
}

/// Pairs can be read back from their list.
proof fn pairs_round_trip(pairs: Seq<(Seq<u8>, Seq<u8>)>)
    ensures
        flat(pairs).len() % 2 == 0,
        paired(flat(pairs)) == pairs,
{
    assert(paired(flat(pairs)) =~= pairs) by {
        assert forall|i: int| 0 <= i < pairs.len() implies paired(flat(pairs))[i] == pairs[i] by {
            assert((2 * i) % 2 == 0 && (2 * i) / 2 == i);
            assert((2 * i + 1) % 2 == 1 && (2 * i + 1) / 2 == i);
        }
    }
}

fn texts1(a: &str) -> (out: Vec<Option<String>>)
    ensures
        opt_texts(out@) == seq![Some(a@)],
{
    let mut out: Vec<Option<String>> = Vec::new();
    out.push(Some(a.to_owned()));
    assert(opt_texts(out@) =~= seq![Some(a@)]);
    out
}

fn blobs1(a: &[u8]) -> (out: Vec<Vec<u8>>)
    ensures
        blobs_of(out@) == seq![a@],
{
    let mut out: Vec<Vec<u8>> = Vec::new();
    out.push(copy_bytes(a));
    assert(blobs_of(out@) =~= seq![a@]);
    out
}

fn write_ticket_texts(ix: &TicketIndexFields) -> (out: Vec<Option<String>>)
    ensures
        opt_texts(out@) == ticket_texts(ix@),
{
    let mut out: Vec<Option<String>> = Vec::new();
    out.push(Some(ix.account_uuid.clone()));
    out.push(copy_text(&ix.assigned_to_uuid));
    out.push(Some(ix.project.clone()));
    out.push(copy_text(&ix.tracking_url));
    assert(opt_texts(out@) =~= ticket_texts(ix@));
    out
}

fn write_user_texts(user_uuid: &str, ix: &UserIndexFields) -> (out: Vec<Option<String>>)
    ensures
        opt_texts(out@) == seq![Some(user_uuid@), Some(ix.username@), Some(ix.email@)],
{
    let mut out: Vec<Option<String>> = Vec::new();
    out.push(Some(user_uuid.to_owned()));
    out.push(Some(ix.username.clone()));
    out.push(Some(ix.email.clone()));
    assert(opt_texts(out@) =~= seq![Some(user_uuid@), Some(ix.username@), Some(ix.email@)]);
    out
}

fn write_pairs(pairs: &Vec<(Vec<u8>, Vec<u8>)>) -> (out: Vec<Vec<u8>>)
    ensures
        blobs_of(out@) == flat(pairs_of(pairs@)),
{
    let mut out: Vec<Vec<u8>> = Vec::new();
    let ghost all = pairs_of(pairs@);
    let mut i: usize = 0;
    assert(blobs_of(out@) =~= flat(all.take(0)));
    while i < pairs.len()
        invariant
            i <= pairs@.len(),
            all == pairs_of(pairs@),
            blobs_of(out@) == flat(all.take(i as int)),
        decreases pairs@.len() - i,
    {
        let ghost before = blobs_of(out@);
        out.push(copy_bytes(pairs[i].0.as_slice()));
        out.push(copy_bytes(pairs[i].1.as_slice()));
        proof {
            let now = blobs_of(out@);
            assert(now =~= before.push(all[i as int].0).push(all[i as int].1));
            assert(now =~= flat(all.take(i + 1))) by {
                assert forall|j: int| 0 <= j < now.len() implies now[j] == flat(all.take(i + 1))[j] by {
                    if j < before.len() {
                        assert(before[j] == flat(all.take(i as int))[j]);
                    }
                }
            }
        }
        i = i + 1;
    }
    assert(all.take(i as int) =~= all);
    out
}

fn read_pairs(blobs: &Vec<Vec<u8>>) -> (out: Vec<(Vec<u8>, Vec<u8>)>)
    requires
        blobs@.len() % 2 == 0,
    ensures
        pairs_of(out@) == paired(blobs_of(blobs@)),
{
    let mut out: Vec<(Vec<u8>, Vec<u8>)> = Vec::new();
    let mut i: usize = 0;
    while i < blobs.len()
        invariant
            i <= blobs@.len(),
            blobs@.len() % 2 == 0,
            i % 2 == 0,
            out@.len() == i / 2,
            forall|j: int|
                0 <= j < out@.len() ==> (#[trigger] out@[j]).0@ == blobs@[2 * j]@ && out@[j].1@
                    == blobs@[2 * j + 1]@,
        decreases blobs@.len() - i,
    {
        out.push((copy_bytes(blobs[i].as_slice()), copy_bytes(blobs[i + 1].as_slice())));
        i = i + 2;
    }
    assert(pairs_of(out@) =~= paired(blobs_of(blobs@)));
    out
}

fn take_text(texts: &Vec<Option<String>>, i: usize) -> (out: Option<String>)
    requires
        i < texts@.len(),
    ensures
        text_of(out) == opt_texts(texts@)[i as int],
{
    copy_text(&texts[i])
}

fn read_ticket_index(r: &Record, status: u64) -> (out: Option<TicketIndexFields>)
    ensures
        match out {
            Some(ix) => ticket_index_in(r@, status) == Some(ix@),
            None => ticket_index_in(r@, status) is None,
        },
{
    if status > 255 || r.stamps.len() != 2 || r.texts.len() != 4 || r.blobs.len() != 1 {
        return None;
    }
    match (take_text(&r.texts, 0), take_text(&r.texts, 2)) {
        (Some(account_uuid), Some(project)) => Some(
            TicketIndexFields {
                status: status as u8,
                account_uuid,
                assigned_to_uuid: take_text(&r.texts, 1),
                project,
                tracking_url: take_text(&r.texts, 3),
                created_at_unix: r.stamps[0],
                updated_at_unix: r.stamps[1],
            },
        ),
        _ => None,
    }
}

fn read_user_index(r: &Record, role: u64) -> (out: Option<(String, UserIndexFields)>)
    ensures
        match out {
            Some((user_uuid, ix)) => user_index_in(r@, role) == Some((user_uuid@, ix@)),
            None => user_index_in(r@, role) is None,
        },
{
    if role > 255 || r.stamps.len() != 0 || r.texts.len() != 3 || r.blobs.len() != 1 {
        return None;
    }
    match (take_text(&r.texts, 0), take_text(&r.texts, 1), take_text(&r.texts, 2)) {
        (Some(user_uuid), Some(username), Some(email)) => Some(
            (user_uuid, UserIndexFields { username, email, role: role as u8 }),
        ),
        _ => None,
    }
}

fn read_collection(r: &Record) -> (out: Option<String>)
    ensures
        text_of(out) == collection_in(r@),
{
    if r.counts.len() == 1 && r.stamps.len() == 0 && r.texts.len() == 1 {
        take_text(&r.texts, 0)
    } else {
        None
    }
}

fn counts1(a: u64) -> (out: Vec<u64>)
    ensures
        out@ == seq![a],
{
    let mut out: Vec<u64> = Vec::new();
    out.push(a);
    assert(out@ =~= seq![a]);
    out
}

fn counts2(a: u64, b: u64) -> (out: Vec<u64>)
    ensures
        out@ == seq![a, b],
{
    let mut out: Vec<u64> = Vec::new();
    out.push(a);
    out.push(b);
    assert(out@ =~= seq![a, b]);
    out
}

fn counts3(a: u64, b: u64, c: u64) -> (out: Vec<u64>)
    ensures
        out@ == seq![a, b, c],
{
    let mut out: Vec<u64> = Vec::new();
    out.push(a);
    out.push(b);
    out.push(c);
    assert(out@ =~= seq![a, b, c]);
    out
}

fn stamps1(a: i64) -> (out: Vec<i64>)
    ensures
        out@ == seq![a],
{
    let mut out: Vec<i64> = Vec::new();
    out.push(a);
    assert(out@ =~= seq![a]);
    out
}

fn stamps2(a: i64, b: i64) -> (out: Vec<i64>)
    ensures
        out@ == seq![a, b],
{
    let mut out: Vec<i64> = Vec::new();
    out.push(a);
    out.push(b);
    assert(out@ =~= seq![a, b]);
    out
}

fn plain(
    counts: Vec<u64>,
    stamps: Vec<i64>,
    texts: Vec<Option<String>>,
    blobs: Vec<Vec<u8>>,
) -> (out: Record)
    ensures
        out@ == plain_record(counts@, stamps@, opt_texts(texts@), blobs_of(blobs@)),
{
    let out = Record { counts, groups: Vec::new(), stamps, texts, blobs };
    assert(out@ =~= plain_record(counts@, stamps@, opt_texts(texts@), blobs_of(blobs@)));
    out
}

impl Command for LogEntry {
    open spec fn record_view(v: LogEntryView) -> RecordView {
        match v {
            LogEntryView::Put { collection, key, value } => plain_record(
                seq![0],
                seq![],
                seq![Some(collection)],
                seq![key, value],
            ),
            LogEntryView::Get { collection, key } => plain_record(
                seq![1],
                seq![],
                seq![Some(collection)],
                seq![key],
            ),
            LogEntryView::Delete { collection, key } => plain_record(
                seq![2],
                seq![],
                seq![Some(collection)],
                seq![key],
            ),
            LogEntryView::BatchPut { collection, pairs } => plain_record(
                seq![3],
                seq![],
                seq![Some(collection)],
                flat(pairs),
            ),
            LogEntryView::CreateTicket { body, index } => plain_record(
                seq![4, index.status as u64],
                seq![index.created_at_unix, index.updated_at_unix],
                ticket_texts(index),
                seq![body],
            ),
            LogEntryView::UpdateTicket { ticket_id, body, index } => plain_record(
                seq![5, index.status as u64, ticket_id],
                seq![index.created_at_unix, index.updated_at_unix],
                ticket_texts(index),
                seq![body],
            ),
            LogEntryView::SoftDeleteTicket { ticket_id, at_unix } => plain_record(
                seq![6, ticket_id],
                seq![at_unix],
                seq![],
                seq![],
            ),
            LogEntryView::CreateUser { user_uuid, body, index } => plain_record(
                seq![7, index.role as u64],
                seq![],
                seq![Some(user_uuid), Some(index.username), Some(index.email)],
                seq![body],
            ),
            LogEntryView::UpdateUser { user_uuid, body, index } => plain_record(
                seq![8, index.role as u64],
                seq![],
                seq![Some(user_uuid), Some(index.username), Some(index.email)],
                seq![body],
            ),
            LogEntryView::SoftDeleteUser { user_uuid, at_unix } => plain_record(
                seq![9],
                seq![at_unix],
                seq![Some(user_uuid)],
                seq![],
            ),
        }
    }

    open spec fn of_record(r: RecordView) -> Option<LogEntryView> {
        if r.counts.len() == 0 || r.groups.len() != 0 {
            None
        } else if r.counts[0] == 0 {
            match collection_in(r) {
                Some(collection) if r.blobs.len() == 2 => Some(
                    LogEntryView::Put { collection, key: r.blobs[0], value: r.blobs[1] },
                ),
                _ => None,
            }
        } else if r.counts[0] == 1 {
            match collection_in(r) {
                Some(collection) if r.blobs.len() == 1 => Some(
                    LogEntryView::Get { collection, key: r.blobs[0] },
                ),
                _ => None,
            }
        } else if r.counts[0] == 2 {
            match collection_in(r) {
                Some(collection) if r.blobs.len() == 1 => Some(
                    LogEntryView::Delete { collection, key: r.blobs[0] },
                ),
                _ => None,
            }
        } else if r.counts[0] == 3 {
            match collection_in(r) {
                Some(collection) if r.blobs.len() % 2 == 0 => Some(
                    LogEntryView::BatchPut { collection, pairs: paired(r.blobs) },
                ),
                _ => None,
            }
        } else if r.counts[0] == 4 && r.counts.len() == 2 {
            match ticket_index_in(r, r.counts[1]) {
                Some(index) => Some(LogEntryView::CreateTicket { body: r.blobs[0], index }),
                None => None,
            }
        } else if r.counts[0] == 5 && r.counts.len() == 3 {
            match ticket_index_in(r, r.counts[1]) {
                Some(index) => Some(
                    LogEntryView::UpdateTicket { ticket_id: r.counts[2], body: r.blobs[0], index },
                ),
                None => None,
            }
        } else if r.counts[0] == 6 && r.counts.len() == 2 && r.stamps.len() == 1 && r.texts.len()
            == 0 && r.blobs.len() == 0 {
            Some(
                LogEntryView::SoftDeleteTicket { ticket_id: r.counts[1], at_unix: r.stamps[0] },
            )
        } else if r.counts[0] == 7 && r.counts.len() == 2 {
            match user_index_in(r, r.counts[1]) {
                Some((user_uuid, index)) => Some(
                    LogEntryView::CreateUser { user_uuid, body: r.blobs[0], index },
                ),
                None => None,
            }
        } else if r.counts[0] == 8 && r.counts.len() == 2 {
            match user_index_in(r, r.counts[1]) {
                Some((user_uuid, index)) => Some(
                    LogEntryView::UpdateUser { user_uuid, body: r.blobs[0], index },
                ),
                None => None,
            }
        } else if r.counts[0] == 9 && r.counts.len() == 1 && r.stamps.len() == 1 && r.texts.len()
            == 1 && r.texts[0] is Some && r.blobs.len() == 0 {
            Some(
                LogEntryView::SoftDeleteUser { user_uuid: r.texts[0]->0, at_unix: r.stamps[0] },
            )
        } else {
            None
        }
    }

    proof fn record_round_trip(v: LogEntryView) {
        match v {
            LogEntryView::BatchPut { collection, pairs } => {
                pairs_round_trip(pairs);
            },
            LogEntryView::CreateTicket { body, index } => {
                assert(ticket_index_in(Self::record_view(v), index.status as u64)->0 =~= index);
            },
            LogEntryView::UpdateTicket { ticket_id, body, index } => {
                assert(ticket_index_in(Self::record_view(v), index.status as u64)->0 =~= index);
            },
            LogEntryView::CreateUser { user_uuid, body, index } => {
                let (_, back) = user_index_in(Self::record_view(v), index.role as u64)->0;
                assert(back =~= index);
            },
            LogEntryView::UpdateUser { user_uuid, body, index } => {
                let (_, back) = user_index_in(Self::record_view(v), index.role as u64)->0;
                assert(back =~= index);
            },
            _ => {},
        }
    }

    fn to_record(&self) -> (out: Record) {
        match self {
            LogEntry::Put { collection, key, value } => {
                let mut blobs: Vec<Vec<u8>> = blobs1(key.as_slice());
                let ghost before = blobs@;
                assert(blobs_of(before).len() == before.len());
                blobs.push(copy_bytes(value.as_slice()));
                assert(blobs@[0]@ == blobs_of(before)[0]);
                assert(blobs_of(blobs@) =~= seq![key@, value@]);
                plain(counts1(0), Vec::new(), texts1(collection.as_str()), blobs)
            },
            LogEntry::Get { collection, key } => plain(
                counts1(1),
                Vec::new(),
                texts1(collection.as_str()),
                blobs1(key.as_slice()),
            ),
            LogEntry::Delete { collection, key } => plain(
                counts1(2),
                Vec::new(),
                texts1(collection.as_str()),
                blobs1(key.as_slice()),
            ),
            LogEntry::BatchPut { collection, pairs } => plain(
                counts1(3),
                Vec::new(),
                texts1(collection.as_str()),
                write_pairs(pairs),
            ),
            LogEntry::CreateTicket { body, index } => plain(
                counts2(4, index.status as u64),
                stamps2(index.created_at_unix, index.updated_at_unix),
                write_ticket_texts(index),
                blobs1(body.as_slice()),
            ),
            LogEntry::UpdateTicket { ticket_id, body, index } => plain(
                counts3(5, index.status as u64, *ticket_id),
                stamps2(index.created_at_unix, index.updated_at_unix),
                write_ticket_texts(index),
                blobs1(body.as_slice()),
            ),
            LogEntry::SoftDeleteTicket { ticket_id, at_unix } => {
                let out = plain(
                    counts2(6, *ticket_id),
                    stamps1(*at_unix),
                    Vec::new(),
                    Vec::new(),
                );
                assert(out@ =~= Self::record_view(self@));
                out
            },
            LogEntry::CreateUser { user_uuid, body, index } => plain(
                counts2(7, index.role as u64),
                Vec::new(),
                write_user_texts(user_uuid.as_str(), index),
                blobs1(body.as_slice()),
            ),
            LogEntry::UpdateUser { user_uuid, body, index } => plain(
                counts2(8, index.role as u64),
                Vec::new(),
                write_user_texts(user_uuid.as_str(), index),
                blobs1(body.as_slice()),
            ),
            LogEntry::SoftDeleteUser { user_uuid, at_unix } => {
                let out = plain(
                    counts1(9),
                    stamps1(*at_unix),
                    texts1(user_uuid.as_str()),
                    Vec::new(),
                );
                assert(out@ =~= Self::record_view(self@));
                out
            },
        }
    }

    fn from_record(record: Record) -> (out: Option<Self>) {
        let r = &record;
        assert(r@.texts.len() == r.texts@.len());
        assert(r@.blobs.len() == r.blobs@.len());
        assert(r@.groups.len() == r.groups@.len());
        if r.counts.len() == 0 || r.groups.len() != 0 {
            return None;
        }
        let kind: u64 = r.counts[0];
        if kind <= 3 {
            let collection: String = match read_collection(r) {
                Some(collection) => collection,
                None => {
                    return None;
                },
            };
            if kind == 0 && r.blobs.len() == 2 {
                Some(
                    LogEntry::Put {
                        collection,
                        key: copy_bytes(r.blobs[0].as_slice()),
                        value: copy_bytes(r.blobs[1].as_slice()),
                    },
                )
            } else if kind == 1 && r.blobs.len() == 1 {
                Some(LogEntry::Get { collection, key: copy_bytes(r.blobs[0].as_slice()) })
            } else if kind == 2 && r.blobs.len() == 1 {
                Some(LogEntry::Delete { collection, key: copy_bytes(r.blobs[0].as_slice()) })
            } else if kind == 3 && r.blobs.len() % 2 == 0 {
                Some(LogEntry::BatchPut { collection, pairs: read_pairs(&r.blobs) })
            } else {
                None
            }
        } else if kind == 4 && r.counts.len() == 2 {
            match read_ticket_index(r, r.counts[1]) {
                Some(index) => Some(
                    LogEntry::CreateTicket { body: copy_bytes(r.blobs[0].as_slice()), index },
                ),
                None => None,
            }
        } else if kind == 5 && r.counts.len() == 3 {
            match read_ticket_index(r, r.counts[1]) {
                Some(index) => Some(
                    LogEntry::UpdateTicket {
                        ticket_id: r.counts[2],
                        body: copy_bytes(r.blobs[0].as_slice()),
                        index,
                    },
                ),
                None => None,
            }
        } else if kind == 6 && r.counts.len() == 2 && r.stamps.len() == 1 && r.texts.len() == 0
            && r.blobs.len() == 0 {
            Some(LogEntry::SoftDeleteTicket { ticket_id: r.counts[1], at_unix: r.stamps[0] })
        } else if kind == 7 && r.counts.len() == 2 {
            match read_user_index(r, r.counts[1]) {
                Some((user_uuid, index)) => Some(
                    LogEntry::CreateUser {
                        user_uuid,
                        body: copy_bytes(r.blobs[0].as_slice()),
                        index,
                    },
                ),
                None => None,
            }
        } else if kind == 8 && r.counts.len() == 2 {
            match read_user_index(r, r.counts[1]) {
                Some((user_uuid, index)) => Some(
                    LogEntry::UpdateUser {
                        user_uuid,
                        body: copy_bytes(r.blobs[0].as_slice()),
                        index,
                    },
                ),
                None => None,
            }
        } else if kind == 9 && r.counts.len() == 1 && r.stamps.len() == 1 && r.texts.len() == 1
            && r.blobs.len() == 0 {
            match take_text(&r.texts, 0) {
                Some(user_uuid) => Some(
                    LogEntry::SoftDeleteUser { user_uuid, at_unix: r.stamps[0] },
                ),
                None => None,
            }
        } else {
            None
        }
    }
}

} // verus!
