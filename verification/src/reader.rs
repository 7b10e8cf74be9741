//! Reading delimited records, with quoted fields, out of bytes.
//!
//! The records are decoded by the `csv` crate. What it yields for given bytes
//! is named, not restated; what this library does with it is verified.

use crate::grid::{Grid, Row};
use crate::record::{header_cells, header_row, push_row, trimmed_row};
use vstd::prelude::*;

verus! {

#[verifier::external_type_specification]
#[verifier::external_body]
#[verifier::reject_recursive_types(R)]
pub struct ExReader<R>(csv::Reader<R>);

#[verifier::external_type_specification]
#[verifier::external_body]
pub struct ExError(csv::Error);

/// What a `csv` reader yields, one after the other, for the given bytes: for
/// each record either its fields or, where it cannot be decoded, nothing.
/// `headers` says whether the reader takes the first record for a header and
/// keeps it back, `flexible` whether it accepts records of unequal length.
pub uninterp spec fn csv_outcomes(input: Seq<u8>, delimiter: u8, headers: bool, flexible: bool) -> Seq<
    Option<Row>,
>;

/// What a reader has yet to yield.
pub uninterp spec fn reader_pending(reader: csv::Reader<&[u8]>) -> Seq<Option<Row>>;

/// `ReaderBuilder::from_reader`, on a builder made by `ReaderBuilder::new` and
/// set up by `has_headers`, `flexible` and `delimiter`: a reader that has all
/// the records of the input yet to yield.
#[verifier::external_body]
pub(crate) fn open_reader<'a>(input: &'a [u8], delimiter: u8, headers: bool, flexible: bool) -> (reader:
    csv::Reader<&'a [u8]>)
    ensures
        reader_pending(reader) == csv_outcomes(input@, delimiter, headers, flexible),
{
    csv::ReaderBuilder::new().has_headers(headers).flexible(flexible).delimiter(
        delimiter,
    ).from_reader(input)
}

/// `next` on `Reader::records`: yields the first of what the reader had yet to
/// yield, as the fields of a record or as the error of one that could not be
/// decoded, and nothing once all has been yielded.
#[verifier::external_body]
pub(crate) fn next_record(reader: &mut csv::Reader<&[u8]>) -> (out: Option<
    Result<Vec<String>, csv::Error>,
>)
    ensures
        match out {
            None => reader_pending(*old(reader)).len() == 0,
            Some(outcome) => {
                &&& reader_pending(*old(reader)).len() > 0
                &&& reader_pending(*final(reader)) == reader_pending(*old(reader)).skip(1)
                &&& match outcome {
                    Ok(fields) => reader_pending(*old(reader))[0] == Some(fields.deep_view()),
                    Err(_) => reader_pending(*old(reader))[0] is None,
                }
            },
        },
{
    reader.records().next().map(
        |outcome| outcome.map(|record| record.iter().map(|field| field.to_string()).collect()),
    )
}

/// `to_string` of a `csv::Error`: the words in which `csv` describes it.
#[verifier::external_body]
pub(crate) fn error_text(error: &csv::Error) -> (text: String) {
    error.to_string()
}

/// A record that could not be decoded.
#[derive(Debug, Clone)]
pub struct ReadError {
    /// How many records came before it.
    pub record: usize,
    /// What the decoder says of it.
    pub reason: String,
}

/// The rows that the first `n` outcomes stand for, all of them records, with
/// every cell trimmed where that is asked for.
pub open spec fn rows_of(outcomes: Seq<Option<Row>>, trim_cells: bool, n: int) -> Grid {
    Seq::new(
        if n > 0 { n as nat } else { 0 },
        |i: int|
            if trim_cells {
                trimmed_row(outcomes[i]->0)
            } else {
                outcomes[i]->0
            },
    )
}

/// The header row, where titles are given.
pub open spec fn header_part(titles: Option<Seq<char>>, trim_cells: bool) -> Grid {
    match titles {
        Some(t) => seq![header_cells(t, trim_cells)],
        None => Seq::empty(),
    }
}

/// Whether the first `n` outcomes are all records.
pub open spec fn all_records(outcomes: Seq<Option<Row>>, n: int) -> bool {
    forall|i: int| 0 <= i < n ==> (#[trigger] outcomes[i]) is Some
}

/// The titles as text.
pub open spec fn titles_text(titles: Option<&str>) -> Option<Seq<char>> {
    match titles {
        Some(t) => Some(t@),
        None => None,
    }
}

/// Reads a grid out of delimited text: the header row, where titles are given
/// as a comma-separated list, and then one row for each record, as long as the
/// record has fields. Fields in quotes may hold the delimiter. Where trimming
/// is asked for, the whitespace around every cell goes, the header's too. The
/// first record that cannot be decoded ends the reading with an error that
/// tells how many records came before it.
pub fn read_grid(input: &[u8], delimiter: u8, titles: Option<&str>, trim_cells: bool) -> (out:
    Result<Vec<Vec<String>>, ReadError>)
    ensures
        ({
            let outcomes = csv_outcomes(input@, delimiter, false, true);
            match out {
                Ok(rows) => {
                    &&& all_records(outcomes, outcomes.len() as int)
                    &&& rows.deep_view() == header_part(titles_text(titles), trim_cells) + rows_of(
                        outcomes,
                        trim_cells,
                        outcomes.len() as int,
                    )
                },
                Err(e) => {
                    &&& 0 <= e.record < outcomes.len()
                    &&& outcomes[e.record as int] is None
                    &&& all_records(outcomes, e.record as int)
                },
            }
        }),
{
    let ghost outcomes = csv_outcomes(input@, delimiter, false, true);
    let ghost head = header_part(titles_text(titles), trim_cells);
    let mut rows: Vec<Vec<String>> = Vec::new();
    if let Some(t) = titles {
        rows.push(header_row(t, trim_cells));
    }
    assert(rows.deep_view() =~= head + rows_of(outcomes, trim_cells, 0));
    let mut reader = open_reader(input, delimiter, false, true);
    let mut count: usize = 0;
    loop
        invariant
            outcomes == csv_outcomes(input@, delimiter, false, true),
            head == header_part(titles_text(titles), trim_cells),
            count <= outcomes.len(),
            reader_pending(reader) == outcomes.skip(count as int),
            all_records(outcomes, count as int),
            rows.deep_view() == head + rows_of(outcomes, trim_cells, count as int),
        decreases outcomes.len() - count,
    {
        let ghost before = rows.deep_view();
        match next_record(&mut reader) {
            None => {
                return Ok(rows);
            },
            Some(Err(error)) => {
                return Err(ReadError { record: count, reason: error_text(&error) });
            },
            Some(Ok(fields)) => {
                assert(outcomes[count as int] == Some(fields.deep_view()));
                assert(outcomes.skip(count as int).skip(1) =~= outcomes.skip(count + 1));
                push_row(&mut rows, fields, trim_cells);
                assert(rows.deep_view() =~= head + rows_of(outcomes, trim_cells, count + 1));
                assert(rows.len() == rows.deep_view().len() == head.len() + count + 1);
                count += 1;
            },
        }
    }
}

} // verus!
