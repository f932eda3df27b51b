//! From a delimited file's bytes to two columns of paired observations.
//!
//! The work is done in two steps, with the parsing of numbers between them
//! left to the caller: `read_columns` decodes the records and picks the two
//! fields of each that hold the observation, and `pair_columns` keeps the rows
//! in which both fields were numbers.

use crate::records::{csv_records, parse_records, record_field, record_fields, rows_of};
use vstd::prelude::*;

verus! {

/// Position of the field that holds the independent variable.
pub const X_COLUMN: usize = 6;

/// Position of the field that holds the dependent variable.
pub const Y_COLUMN: usize = 8;

/// Why no dataset could be had from an input.
#[derive(Clone, Copy, Debug, PartialEq, Eq, Structural)]
pub enum DatasetError {
    /// The input is not well-formed delimited text.
    Malformed,
    /// No row holds a number in both columns.
    NoValidRows,
}

/// The text of the field at `index`, or the empty text where the record has
/// no such field.
pub open spec fn field_or_empty(fields: Seq<Seq<char>>, index: int) -> Seq<char> {
    if 0 <= index < fields.len() {
        fields[index]
    } else {
        Seq::empty()
    }
}

/// Returns the field at `index`, or `""` where the record is too short.
pub fn field_text<'a>(record: &'a csv::StringRecord, index: usize) -> (res: &'a str)
    ensures
        res@ == field_or_empty(record_fields(*record), index as int),
{
    match record_field(record, index) {
        Some(field) => field,
        None => {
            proof {
                reveal_strlit("");
            }
            assert(""@ =~= Seq::<char>::empty());
            ""
        },
    }
}

/// The two fields of a record that hold its observation, each empty where the
/// record is too short to have it.
pub open spec fn observation_fields(fields: Seq<Seq<char>>) -> (Seq<char>, Seq<char>) {
    (field_or_empty(fields, X_COLUMN as int), field_or_empty(fields, Y_COLUMN as int))
}

/// The observation fields of every row, in order.
pub open spec fn selected_columns(rows: Seq<Seq<Seq<char>>>) -> Seq<(Seq<char>, Seq<char>)> {
    rows.map_values(|fields: Seq<Seq<char>>| observation_fields(fields))
}

/// Picks the two observation fields of each record, one pair per record and
/// in the order of the records.
pub fn select_columns(records: &[csv::StringRecord]) -> (res: Vec<(String, String)>)
    ensures
        res.deep_view() == selected_columns(rows_of(records@)),
{
    let mut out: Vec<(String, String)> = Vec::new();
    for i in 0..records.len()
        invariant
            out.len() == i,
            forall|j: int|
                0 <= j < i ==> (#[trigger] out[j]).deep_view() == observation_fields(
                    record_fields(records[j]),
                ),
    {
        let x = field_text(&records[i], X_COLUMN).to_owned();
        let y = field_text(&records[i], Y_COLUMN).to_owned();
        out.push((x, y));
    }
    assert(out.deep_view() =~= selected_columns(rows_of(records@)));
    out
}

/// Decodes `bytes` as delimited text with a header row and returns the two
/// observation fields of every record after the header.
pub fn read_columns(bytes: &[u8]) -> (res: Result<Vec<(String, String)>, DatasetError>)
    ensures
        match csv_records(bytes@) {
            Some(rows) => res is Ok && res->Ok_0.deep_view() == selected_columns(rows),
            None => res == Err::<Vec<(String, String)>, DatasetError>(DatasetError::Malformed),
        },
{
    match parse_records(bytes) {
        Ok(records) => Ok(select_columns(&records)),
        Err(_) => Err(DatasetError::Malformed),
    }
}

/// The observation of a row: its two values, where both are there.
pub open spec fn observation<T>(row: (Option<T>, Option<T>)) -> Option<(T, T)> {
    match row {
        (Some(x), Some(y)) => Some((x, y)),
        _ => None,
    }
}

/// The observations of the rows that have one, in the order of the rows.
pub open spec fn observations<T>(rows: Seq<(Option<T>, Option<T>)>) -> Seq<(T, T)> {
    rows.filter_map(|row: (Option<T>, Option<T>)| observation(row))
}

/// Splits the rows that hold both values into a column of first values and a
/// column of second values. Rows that lack a value are left out; if none is
/// left, there is no dataset.
pub fn pair_columns<T>(rows: Vec<(Option<T>, Option<T>)>) -> (res: Result<
    (Vec<T>, Vec<T>),
    DatasetError,
>)
    ensures
        match res {
            Ok((xs, ys)) => {
                &&& xs.len() == ys.len()
                &&& xs.len() > 0
                &&& xs@ == observations(rows@).map_values(|o: (T, T)| o.0)
                &&& ys@ == observations(rows@).map_values(|o: (T, T)| o.1)
            },
            Err(e) => e == DatasetError::NoValidRows && observations(rows@).len() == 0,
        },
{
    let mut xs: Vec<T> = Vec::new();
    let mut ys: Vec<T> = Vec::new();
    let ghost all = rows@;
    for row in it: rows
        invariant
            it.seq() == all,
            xs@ == observations(all.take(it.index() as int)).map_values(|o: (T, T)| o.0),
            ys@ == observations(all.take(it.index() as int)).map_values(|o: (T, T)| o.1),
    {
        assert(all.take(it.index() + 1).drop_last() =~= all.take(it.index() as int));
        match row {
            (Some(x), Some(y)) => {
                xs.push(x);
                ys.push(y);
            },
            _ => {},
        }
    }
    assert(all.take(all.len() as int) =~= all);
    if xs.len() == 0 {
        Err(DatasetError::NoValidRows)
    } else {
        Ok((xs, ys))
    }
}

} // verus!
