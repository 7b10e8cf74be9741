//! Renders delimited text as an aligned, bordered text table.
//!
//! Rows of cells are parsed from text, optionally reduced to a selection of
//! columns, and handed to `tabled` for drawing. The parsing and selection rules
//! are verified; what `tabled` draws is named, not restated.

pub mod config;
pub mod frame;
pub mod grid;
pub mod output;
pub mod project;
pub mod reader;
pub mod record;
pub mod text;
pub mod types;

pub use config::{RenderConfig, TablePadding, TableStyle};
pub use types::{Cols, ConfigError};

use crate::frame::table_text;
use crate::grid::{drawable, squared, Row};
use crate::output::{draw_table, lemma_squared_drawable, rules_header, table_of};
use crate::text::{pieces, split, trim, trimmed};
use vstd::prelude::*;

verus! {

/// A key and its value.
pub struct Attribute {
    pub key: String,
    pub value: String,
}

/// The cells of a line of text for a table of `width` columns: the pieces
/// between the delimiters, each trimmed; empty cells where the line has fewer
/// pieces than columns; the first `width` pieces where it has more.
pub open spec fn row_cells(raw: Seq<char>, delimiter: Seq<char>, width: nat) -> Row {
    Seq::new(
        width,
        |i: int|
            if i < pieces(raw, delimiter).len() {
                trimmed(pieces(raw, delimiter)[i])
            } else {
                Seq::<char>::empty()
            },
    )
}

/// Splits a line at every occurrence of the delimiter into exactly `num_cols`
/// trimmed cells, filling up with empty cells and leaving out what is too
/// much.
pub fn get_row_vec(row: &str, delimiter: &str, num_cols: usize) -> (cells: Vec<String>)
    ensures
        cells.deep_view() == row_cells(row@, delimiter@, num_cols as nat),
{
    let items = split(row, delimiter);
    let mut cells: Vec<String> = Vec::new();
    let mut i: usize = 0;
    while i < num_cols
        invariant
            i <= num_cols,
            items.deep_view() == pieces(row@, delimiter@),
            cells.deep_view() == row_cells(row@, delimiter@, i as nat),
        decreases num_cols - i,
    {
        let ghost before = cells.deep_view();
        if i < items.len() {
            assert(items[i as int].deep_view() == items.deep_view()[i as int]);
            let cell = trim(items[i].as_str());
            cells.push(cell);
            assert(cells.deep_view() =~= before.push(trimmed(pieces(row@, delimiter@)[i as int])));
        } else {
            cells.push(String::new());
            assert(cells.deep_view() =~= before.push(Seq::<char>::empty()));
        }
        assert(cells.deep_view() =~= row_cells(row@, delimiter@, (i + 1) as nat));
        i += 1;
    }
    cells
}

/// The shape of a parsed row: it has exactly `width` cells; the cells for
/// which the line has a piece are those pieces trimmed, in the order of the
/// line; where the line has fewer pieces than `width`, the cells behind the
/// last piece are empty; where it has more, the pieces from `width` on are
/// left out.
pub proof fn lemma_row_cells_shape(raw: Seq<char>, delimiter: Seq<char>, width: nat)
    ensures
        row_cells(raw, delimiter, width).len() == width,
        forall|i: int|
            0 <= i < width && i < pieces(raw, delimiter).len() ==> row_cells(
                raw,
                delimiter,
                width,
            )[i] == trimmed(#[trigger] pieces(raw, delimiter)[i]),
        forall|i: int|
            pieces(raw, delimiter).len() <= i < width ==> (#[trigger] row_cells(
                raw,
                delimiter,
                width,
            )[i]).len() == 0,
{
}

/// Draws all rows under the settings, whether there are any or not.
pub fn get_output(data: &[Vec<String>], config: RenderConfig) -> (text: String)
    requires
        drawable(data.deep_view(), config),
    ensures
        text@ == table_text(
            squared(data.deep_view()),
            config,
            rules_header(data.deep_view(), config),
        ),
        data.len() == 0 ==> text@.len() == 0,
{
    proof {
        lemma_squared_drawable(data.deep_view(), config);
    }
    let table = table_of(data);
    draw_table(table, config)
}

} // verus!
