//! The csv crate's records, as far as the dataset logic reads them.
//!
//! Nothing in this module is proved about the csv crate itself: the contracts
//! of `parse_records` and `record_field` state what its reader and its
//! `StringRecord` are taken to do, and the rest of the library is verified
//! against them.

use vstd::prelude::*;

verus! {

/// `csv::StringRecord`, one record of text fields. Its contents are opaque
/// here and spoken of through `record_fields`.
#[verifier::external_type_specification]
#[verifier::external_body]
pub struct ExStringRecord(csv::StringRecord);

/// `csv::Error`, the csv crate's report of a record it could not read. It
/// is only carried from the reader to the place that maps it.
#[verifier::external_type_specification]
#[verifier::external_body]
pub struct ExCsvError(csv::Error);

/// The fields of a record, in order, each as its text.
pub uninterp spec fn record_fields(record: csv::StringRecord) -> Seq<Seq<char>>;

/// What the csv crate's reader, in its default configuration, makes of a
/// whole input: the fields of every record after the header row, in order,
/// or `None` where it reports an error for some record.
pub uninterp spec fn csv_records(bytes: Seq<u8>) -> Option<Seq<Seq<Seq<char>>>>;

/// The fields of each record of a sequence.
pub open spec fn rows_of(records: Seq<csv::StringRecord>) -> Seq<Seq<Seq<char>>> {
    records.map_values(|record: csv::StringRecord| record_fields(record))
}

/// Calls `csv::StringRecord::get`: the field at `index`, and `None` exactly
/// when the record has no such field.
#[verifier::external_body]
pub(crate) fn record_field<'a>(record: &'a csv::StringRecord, index: usize) -> (res: Option<
    &'a str,
>)
    ensures
        match res {
            Some(field) => index < record_fields(*record).len() && field@ == record_fields(
                *record,
            )[index as int],
            None => index >= record_fields(*record).len(),
        },
{
    record.get(index)
}

/// Runs `csv::Reader::from_reader` over `bytes` and collects what its
/// `records` iterator yields up to the first error. The reader works on the
/// bytes alone, so its outcome is the named result `csv_records`.
#[verifier::external_body]
pub(crate) fn parse_records(bytes: &[u8]) -> (res: Result<Vec<csv::StringRecord>, csv::Error>)
    ensures
        match res {
            Ok(records) => csv_records(bytes@) == Some(rows_of(records@)),
            Err(_) => csv_records(bytes@) is None,
        },
{
    let mut reader = csv::Reader::from_reader(bytes);
    reader.records().collect()
}

} // verus!
