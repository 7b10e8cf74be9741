//! Rows as they come from a reader of delimited records, and the header row.

use crate::grid::Row;
use crate::text::{pieces, split, trim, trimmed};
use vstd::prelude::*;

verus! {

/// Every cell of the row, trimmed.
pub open spec fn trimmed_row(row: Row) -> Row {
    Seq::new(row.len(), |i: int| trimmed(row[i]))
}

/// The header row that a comma-separated list of titles stands for: its
/// pieces, trimmed where that is asked for and as they are where not.
pub open spec fn header_cells(titles: Seq<char>, trim_cells: bool) -> Row {
    if trim_cells {
        trimmed_row(pieces(titles, seq![',']))
    } else {
        pieces(titles, seq![','])
    }
}

/// The record with the whitespace around every cell removed.
pub fn get_trimmed_record(record: Vec<String>) -> (out: Vec<String>)
    ensures
        out.deep_view() == trimmed_row(record.deep_view()),
{
    let mut out: Vec<String> = Vec::new();
    let mut i: usize = 0;
    assert(out.deep_view() =~= Seq::new(0, |k: int| trimmed(record.deep_view()[k])));
    while i < record.len()
        invariant
            i <= record.len(),
            out.deep_view() == Seq::new(i as nat, |k: int| trimmed(record.deep_view()[k])),
        decreases record.len() - i,
    {
        let ghost before = out.deep_view();
        assert(record[i as int].deep_view() == record.deep_view()[i as int]);
        let cell = trim(record[i].as_str());
        out.push(cell);
        assert(out.deep_view() =~= before.push(trimmed(record.deep_view()[i as int])));
        assert(out.deep_view() =~= Seq::new(
            (i + 1) as nat,
            |k: int| trimmed(record.deep_view()[k]),
        ));
        i += 1;
    }
    out
}

/// Appends a record to the rows as their last row, with every cell trimmed
/// where that is asked for and as it is where not.
pub fn push_row(rows: &mut Vec<Vec<String>>, fields: Vec<String>, trim_cells: bool)
    ensures
        final(rows).deep_view() == old(rows).deep_view().push(
            if trim_cells {
                trimmed_row(fields.deep_view())
            } else {
                fields.deep_view()
            },
        ),
{
    let ghost before = rows.deep_view();
    let row = if trim_cells {
        get_trimmed_record(fields)
    } else {
        fields
    };
    let ghost cells = row.deep_view();
    rows.push(row);
    assert(rows.deep_view() =~= before.push(cells));
}

/// The header row for a comma-separated list of titles.
pub fn header_row(titles: &str, trim_cells: bool) -> (out: Vec<String>)
    ensures
        out.deep_view() == header_cells(titles@, trim_cells),
{
    proof {
        reveal_strlit(",");
        assert(","@ =~= seq![',']);
    }
    let cells = split(titles, ",");
    if trim_cells {
        get_trimmed_record(cells)
    } else {
        cells
    }
}

/// Trimming a row twice is trimming it once.
pub proof fn lemma_trimmed_row_idempotent(row: Row)
    ensures
        trimmed_row(trimmed_row(row)) == trimmed_row(row),
{
    assert forall|i: int| 0 <= i < row.len() implies trimmed(trimmed(row[i])) == trimmed(
        row[i],
    ) by {
        crate::text::lemma_trim_idempotent(row[i]);
    }
    assert(trimmed_row(trimmed_row(row)) =~= trimmed_row(row));
}

} // verus!
