//! Records: the stored form of every row, kept as JSON by `serde_json`.

use vstd::prelude::*;

use crate::text::text_of;

verus! {

#[verifier::external_type_specification]
#[verifier::external_body]
pub struct ExJsonError(serde_json::Error);

/// A row as plain values: counts, groups of counts, timestamps, optional texts and byte strings.
pub struct Record {
    pub counts: Vec<u64>,
    pub groups: Vec<Vec<u64>>,
    pub stamps: Vec<i64>,
    pub texts: Vec<Option<String>>,
    pub blobs: Vec<Vec<u8>>,
}

/// What a record holds.
#[verifier::ext_equal]
pub struct RecordView {
    pub counts: Seq<u64>,
    pub groups: Seq<Seq<u64>>,
    pub stamps: Seq<i64>,
    pub texts: Seq<Option<Seq<char>>>,
    pub blobs: Seq<Seq<u8>>,
}

/// The views of a list of optional texts.
pub open spec fn opt_texts(v: Seq<Option<String>>) -> Seq<Option<Seq<char>>> {
    Seq::new(v.len(), |i: int| text_of(v[i]))
}

/// The views of a list of byte strings.
pub open spec fn blobs_of(v: Seq<Vec<u8>>) -> Seq<Seq<u8>> {
    Seq::new(v.len(), |i: int| v[i]@)
}

/// The views of a list of groups of counts.
pub open spec fn groups_of(v: Seq<Vec<u64>>) -> Seq<Seq<u64>> {
    Seq::new(v.len(), |i: int| v[i]@)
}

impl View for Record {
    type V = RecordView;

    open spec fn view(&self) -> RecordView {
        RecordView {
            counts: self.counts@,
            groups: groups_of(self.groups@),
            stamps: self.stamps@,
            texts: opt_texts(self.texts@),
            blobs: blobs_of(self.blobs@),
        }
    }
}

/// The JSON bytes that `serde_json::to_vec` writes for a record.
pub uninterp spec fn record_json(record: RecordView) -> Seq<u8>;

/// The record that `serde_json::from_slice` reads from JSON bytes, if they hold one.
pub uninterp spec fn record_of(bytes: Seq<u8>) -> Option<RecordView>;

/// Calls `serde_json::to_vec` on the fields of a record as a tuple of lists. Writing integers,
/// strings, options and lists into memory does not fail, and what was written can be read back.
#[verifier::external_body]
pub(crate) fn write_record(record: &Record) -> (out: Result<Vec<u8>, serde_json::Error>)
    ensures
        match out {
            Ok(bytes) => bytes@ == record_json(record@) && record_of(bytes@) == Some(record@),
            Err(_) => false,
        },
{
    let Record { counts, groups, stamps, texts, blobs } = record;
    serde_json::to_vec(&(counts, groups, stamps, texts, blobs))
}

/// Calls `serde_json::from_slice` for a tuple of the five lists of a record.
#[verifier::external_body]
pub(crate) fn read_record(bytes: &[u8]) -> (out: Result<Record, serde_json::Error>)
    ensures
        match out {
            Ok(record) => record_of(bytes@) == Some(record@),
            Err(_) => record_of(bytes@) is None,
        },
{
    let parts: (Vec<u64>, Vec<Vec<u64>>, Vec<i64>, Vec<Option<String>>, Vec<Vec<u8>>) =
        serde_json::from_slice(bytes)?;
    let (counts, groups, stamps, texts, blobs) = parts;
    Ok(Record { counts, groups, stamps, texts, blobs })
}

/// Calls `to_string` on a `serde_json::Error`. Nothing is said of the text.
#[verifier::external_body]
pub(crate) fn json_error_text(error: &serde_json::Error) -> (out: String) {
    error.to_string()
}

} // verus!
