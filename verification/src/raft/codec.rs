//! The stored form of log entries.

use vstd::prelude::*;

use crate::raft::types::{
    copy_counts, copy_groups, Entry, EntryPayload, EntryView, LeaderId, LogId, Membership,
    MembershipView, PayloadView,
};
use crate::record::{
    groups_of, json_error_text, read_record, record_json, record_of, write_record, Record,
    RecordView,
};
use crate::text::text_of;

verus! {

/// A command that can be kept in the log.
pub trait Command: View + Sized {
    /// The record of a command.
    spec fn record_view(v: Self::V) -> RecordView;

    /// The command that a record holds, if it is the record of one.
    spec fn of_record(r: RecordView) -> Option<Self::V>;

    /// A command can be read back from its record.
    proof fn record_round_trip(v: Self::V)
        ensures
            Self::of_record(Self::record_view(v)) == Some(v),
    ;

    /// Writes the command as a record.
    fn to_record(&self) -> (out: Record)
        ensures
            out@ == Self::record_view(self@),
    ;

    /// Reads a command from a record.
    fn from_record(record: Record) -> (out: Option<Self>)
        ensures
            match out {
                Some(command) => Self::of_record(record@) == Some(command@),
                None => Self::of_record(record@) is None,
            },
    ;
}

/// The record of a membership: the ids of its nodes, its configurations, and the addresses.
pub open spec fn membership_record(m: MembershipView) -> RecordView {
    RecordView {
        counts: Seq::empty(),
        groups: seq![m.node_ids] + m.configs,
        stamps: Seq::empty(),
        texts: Seq::new(m.addresses.len(), |i: int| Some(m.addresses[i])),
        blobs: Seq::empty(),
    }
}

/// The membership that a record holds, if it is the record of one.
pub open spec fn membership_of_record(r: RecordView) -> Option<MembershipView> {
    if r.counts.len() == 0 && r.groups.len() > 0 && r.stamps.len() == 0 && r.blobs.len() == 0 && (
    forall|i: int| 0 <= i < r.texts.len() ==> (#[trigger] r.texts[i]) is Some) {
        Some(
            MembershipView {
                configs: r.groups.drop_first(),
                node_ids: r.groups[0],
                addresses: Seq::new(r.texts.len(), |i: int| r.texts[i]->0),
            },
        )
    } else {
        None
    }
}

/// The record without content.
pub open spec fn empty_record() -> RecordView {
    RecordView {
        counts: Seq::empty(),
        groups: Seq::empty(),
        stamps: Seq::empty(),
        texts: Seq::empty(),
        blobs: Seq::empty(),
    }
}

/// The number of a kind of payload.
pub open spec fn payload_kind<V>(p: PayloadView<V>) -> u64 {
    match p {
        PayloadView::Blank => 0,
        PayloadView::Normal(_) => 1,
        PayloadView::Membership(_) => 2,
    }
}

/// The record of an entry: its log id, the kind of its payload, and the payload's own record.
pub open spec fn entry_record<D: Command>(e: EntryView<D::V>) -> RecordView {
    let inner = match e.payload {
        PayloadView::Blank => empty_record(),
        PayloadView::Normal(command) => D::record_view(command),
        PayloadView::Membership(membership) => membership_record(membership),
    };
    RecordView {
        counts: seq![
            e.log_id.leader_id.term,
            e.log_id.leader_id.node_id,
            e.log_id.index,
            payload_kind(e.payload),
        ] + inner.counts,
        ..inner
    }
}

/// The entry that a record holds, if it is the record of one.
pub open spec fn entry_of_record<D: Command>(r: RecordView) -> Option<EntryView<D::V>> {
    if r.counts.len() < 4 {
        None
    } else {
        let log_id = LogId {
            leader_id: LeaderId { term: r.counts[0], node_id: r.counts[1] },
            index: r.counts[2],
        };
        let inner = RecordView { counts: r.counts.skip(4), ..r };
        if r.counts[3] == 0 {
            if inner == empty_record() {
                Some(EntryView { log_id, payload: PayloadView::Blank })
            } else {
                None
            }
        } else if r.counts[3] == 1 {
            match D::of_record(inner) {
                Some(command) => Some(EntryView { log_id, payload: PayloadView::Normal(command) }),
                None => None,
            }
        } else if r.counts[3] == 2 {
            match membership_of_record(inner) {
                Some(membership) => Some(
                    EntryView { log_id, payload: PayloadView::Membership(membership) },
                ),
                None => None,
            }
        } else {
            None
        }
    }
}

/// The bytes of an entry.
pub open spec fn entry_bytes<D: Command>(e: EntryView<D::V>) -> Seq<u8> {
    record_json(entry_record::<D>(e))
}

/// The entry that bytes hold, if they hold one.
pub open spec fn entry_in<D: Command>(bytes: Seq<u8>) -> Option<EntryView<D::V>> {
    match record_of(bytes) {
        Some(record) => entry_of_record::<D>(record),
        None => None,
    }
}

/// An entry can be read back from its record.
pub proof fn entry_record_round_trip<D: Command>(e: EntryView<D::V>)
    ensures
        entry_of_record::<D>(entry_record::<D>(e)) == Some(e),
{
    let r = entry_record::<D>(e);
    let inner = RecordView { counts: r.counts.skip(4), ..r };
    match e.payload {
        PayloadView::Blank => {
            assert(inner =~= empty_record());
        },
        PayloadView::Normal(command) => {
            assert(inner =~= D::record_view(command));
            D::record_round_trip(command);
        },
        PayloadView::Membership(membership) => {
            assert(inner =~= membership_record(membership));
            let back = membership_of_record(inner)->0;
            assert(back =~= membership);
        },
    }
}

fn read_membership(record: Record) -> (out: Option<Membership>)
    ensures
        match out {
            Some(membership) => membership_of_record(record@) == Some(membership@),
            None => membership_of_record(record@) is None,
        },
{
    if record.counts.len() != 0 || record.groups.len() == 0 || record.stamps.len() != 0
        || record.blobs.len() != 0 {
        return None;
    }
    let mut addresses: Vec<String> = Vec::new();
    let mut i: usize = 0;
    while i < record.texts.len()
        invariant
            i <= record.texts@.len(),
            addresses@.len() == i,
            forall|j: int|
                0 <= j < i ==> text_of(record.texts@[j]) == Some((#[trigger] addresses@[j])@),
        decreases record.texts@.len() - i,
    {
        match &record.texts[i] {
            Some(text) => {
                addresses.push(text.clone());
            },
            None => {
                assert(record@.texts[i as int] is None);
                return None;
            },
        }
        i = i + 1;
    }
    let mut configs: Vec<Vec<u64>> = copy_groups(&record.groups);
    assert(groups_of(configs@).len() == configs@.len());
    assert(groups_of(record.groups@).len() == record.groups@.len());
    let node_ids: Vec<u64> = configs.remove(0);
    proof {
        let before = groups_of(record.groups@);
        assert(groups_of(configs@) =~= before.drop_first()) by {
            assert forall|j: int| 0 <= j < configs@.len() implies groups_of(configs@)[j]
                == before.drop_first()[j] by {
                assert(before[j + 1] == groups_of(record.groups@)[j + 1]);
            }
        }
        assert forall|j: int| 0 <= j < record@.texts.len() implies (#[trigger] record@.texts[j]) is Some by {
            assert(text_of(record.texts@[j]) == Some(addresses@[j]@));
        }
    }
    let out = Membership { configs, node_ids, addresses };
    assert(out@ =~= membership_of_record(record@)->0);
    Some(out)
}

fn write_membership(m: &Membership) -> (out: Record)
    ensures
        out@ == membership_record(m@),
{
    let mut groups: Vec<Vec<u64>> = Vec::new();
    groups.push(copy_counts(&m.node_ids));
    let mut configs: Vec<Vec<u64>> = copy_groups(&m.configs);
    let ghost before = groups_of(configs@);
    groups.append(&mut configs);
    assert(groups_of(groups@) =~= seq![m.node_ids@] + before);
    let mut texts: Vec<Option<String>> = Vec::new();
    let mut i: usize = 0;
    while i < m.addresses.len()
        invariant
            i <= m.addresses@.len(),
            texts@.len() == i,
            forall|j: int|
                0 <= j < i ==> (#[trigger] texts@[j]) is Some && texts@[j]->0@ == m.addresses@[j]@,
        decreases m.addresses@.len() - i,
    {
        texts.push(Some(m.addresses[i].clone()));
        i = i + 1;
    }
    let out = Record { counts: Vec::new(), groups, stamps: Vec::new(), texts, blobs: Vec::new() };
    assert(out@ =~= membership_record(m@));
    out
}

impl<D: Command> Entry<D> {
    /// Writes the entry as a record.
    pub fn to_record(&self) -> (out: Record)
        ensures
            out@ == entry_record::<D>(self@),
    {
        let mut counts: Vec<u64> = Vec::new();
        counts.push(self.log_id.leader_id.term);
        counts.push(self.log_id.leader_id.node_id);
        counts.push(self.log_id.index);
        let mut out: Record = match &self.payload {
            EntryPayload::Blank => {
                counts.push(0);
                Record {
                    counts: Vec::new(),
                    groups: Vec::new(),
                    stamps: Vec::new(),
                    texts: Vec::new(),
                    blobs: Vec::new(),
                }
            },
            EntryPayload::Normal(command) => {
                counts.push(1);
                command.to_record()
            },
            EntryPayload::Membership(membership) => {
                counts.push(2);
                write_membership(membership)
            },
        };
        let ghost inner = out@;
        counts.append(&mut out.counts);
        out.counts = counts;
        assert(out@ =~= entry_record::<D>(self@));
        out
    }

    /// Reads an entry from a record.
    pub fn from_record(record: Record) -> (out: Option<Self>)
        ensures
            match out {
                Some(entry) => entry_of_record::<D>(record@) == Some(entry@),
                None => entry_of_record::<D>(record@) is None,
            },
    {
        if record.counts.len() < 4 {
            return None;
        }
        let log_id = LogId {
            leader_id: LeaderId { term: record.counts[0], node_id: record.counts[1] },
            index: record.counts[2],
        };
        let kind: u64 = record.counts[3];
        let mut inner: Record = record;
        let ghost whole = inner@;
        let rest: Vec<u64> = inner.counts.split_off(4);
        inner.counts = rest;
        assert(inner@ =~= (RecordView { counts: whole.counts.skip(4), ..whole }));
        if kind == 0 {
            if inner.counts.len() == 0 && inner.groups.len() == 0 && inner.stamps.len() == 0
                && inner.texts.len() == 0 && inner.blobs.len() == 0 {
                assert(inner@ =~= empty_record());
                Some(Entry { log_id, payload: EntryPayload::Blank })
            } else {
                assert(inner@.counts.len() == inner.counts@.len());
                assert(inner@.groups.len() == inner.groups@.len());
                assert(inner@.stamps.len() == inner.stamps@.len());
                assert(inner@.texts.len() == inner.texts@.len());
                assert(inner@.blobs.len() == inner.blobs@.len());
                None
            }
        } else if kind == 1 {
            match D::from_record(inner) {
                Some(command) => Some(Entry { log_id, payload: EntryPayload::Normal(command) }),
                None => None,
            }
        } else if kind == 2 {
            match read_membership(inner) {
                Some(membership) => Some(
                    Entry { log_id, payload: EntryPayload::Membership(membership) },
                ),
                None => None,
            }
        } else {
            None
        }
    }

    /// The bytes of the entry.
    pub fn encode(&self) -> (out: Result<Vec<u8>, String>)
        ensures
            out matches Ok(bytes) && bytes@ == entry_bytes::<D>(self@) && entry_in::<D>(bytes@)
                == Some(self@),
    {
        match write_record(&self.to_record()) {
            Ok(bytes) => {
                proof {
                    entry_record_round_trip::<D>(self@);
                }
                Ok(bytes)
            },
            Err(e) => Err(json_error_text(&e)),
        }
    }

    /// The entry that bytes hold.
    pub fn decode(bytes: &[u8]) -> (out: Result<Self, String>)
        ensures
            match out {
                Ok(entry) => entry_in::<D>(bytes@) == Some(entry@),
                Err(_) => entry_in::<D>(bytes@) is None,
            },
    {
        match read_record(bytes) {
            Ok(record) => match Entry::from_record(record) {
                Some(entry) => Ok(entry),
                None => Err("not a log entry".to_owned()),
            },
            Err(e) => Err(json_error_text(&e)),
        }
    }
}

} // verus!
