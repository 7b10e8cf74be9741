//! Drawing a grid, after an optional selection of columns.

use crate::config::RenderConfig;
use crate::frame::{
    align_left, build, builder_rows, builder_width, count_rows, draw, new_builder, push_record,
    set_padding, style_sharp, table_look, table_rows, table_text, with_record,
};
use crate::grid::{
    columns_upto, drawable, lemma_columns_upto_attained, lemma_columns_upto_bounds,
    lemma_padded_by_zero, lemma_padded_twice, line_bound, squared, squared_upto, Grid,
};
use crate::project::{
    lemma_positions_out_of_range, lemma_selected_drawable, select_columns, selected,
};
use crate::types::Cols;
use tabled::Table;
use vstd::prelude::*;

verus! {

/// Pushing row `n` onto a builder that holds the first `n` rows squared leaves
/// the first `n + 1` rows squared.
pub proof fn lemma_squared_step(rows: Grid, n: int)
    requires
        0 <= n < rows.len(),
    ensures
        with_record(squared_upto(rows, n), columns_upto(rows, n), rows[n]) =~= squared_upto(
            rows,
            n + 1,
        ),
{
    let before = squared_upto(rows, n);
    let width = columns_upto(rows, n);
    let after = with_record(before, width, rows[n]);
    let goal = squared_upto(rows, n + 1);
    assert(after.len() == goal.len());
    assert forall|i: int| 0 <= i < after.len() implies after[i] == goal[i] by {
        if i < n {
            lemma_columns_upto_bounds(rows, n, i);
            if rows[n].len() > width {
                lemma_padded_twice(rows[i], width - rows[i].len(), rows[n].len() - width);
            }
        } else {
            if rows[n].len() > width {
                lemma_padded_by_zero(rows[n]);
            }
        }
    }
}

/// A grid that is sure to fit stays so when its rows are squared.
pub proof fn lemma_squared_drawable(rows: Grid, look: RenderConfig)
    requires
        drawable(rows, look),
    ensures
        drawable(squared(rows), look),
{
    let sq = squared(rows);
    let n = rows.len() as int;
    assert forall|i: int, j: int, k: int|
        0 <= i < sq.len() && 0 <= j < sq[i].len() && 0 <= k < sq.len() implies line_bound(
        (#[trigger] sq[k]).len(),
        (#[trigger] sq[i][j]).len(),
        look,
    ) <= usize::MAX by {
        let w = lemma_columns_upto_attained(rows, n);
        lemma_columns_upto_bounds(rows, n, k);
        lemma_columns_upto_bounds(rows, n, i);
        assert(sq[k].len() == rows[w].len());
        if j < rows[i].len() {
            assert(sq[i][j] == rows[i][j]);
            assert(line_bound(rows[w].len(), rows[i][j].len(), look) <= usize::MAX);
        } else {
            assert(sq[i][j].len() == 0);
            assert(rows[w].len() > 0);
            assert(line_bound(rows[w].len(), rows[w][0].len(), look) <= usize::MAX);
            assert(line_bound(rows[w].len(), 0, look) <= line_bound(
                rows[w].len(),
                rows[w][0].len(),
                look,
            )) by (nonlinear_arith)
                requires
                    rows[w].len() >= 0,
                    rows[w][0].len() >= 0,
            ;
        }
    }
}

/// Puts the rows into a fresh table, which keeps them squared.
pub fn table_of(data: &[Vec<String>]) -> (table: Table)
    ensures
        table_rows(table) == squared(data.deep_view()),
        table_look(table) == Some(crate::frame::fresh_look()),
{
    let ghost rows = data.deep_view();
    let mut builder = new_builder();
    let mut i: usize = 0;
    while i < data.len()
        invariant
            i <= data.len(),
            rows == data.deep_view(),
            builder_rows(builder) == squared_upto(rows, i as int),
            builder_width(builder) == columns_upto(rows, i as int),
        decreases data.len() - i,
    {
        proof {
            lemma_squared_step(rows, i as int);
            assert(data[i as int].deep_view() == rows[i as int]);
        }
        push_record(&mut builder, &data[i]);
        i += 1;
    }
    build(builder)
}

/// Whether a line is ruled under the first row: where the preset has one and
/// the first row is not the only one.
pub open spec fn rules_header(rows: Grid, config: RenderConfig) -> bool {
    config.style.has_rule() && rows.len() > 1
}

/// Draws the table under the settings: text to the left, the borders of the
/// chosen preset, the chosen padding to the left and right of every cell. The
/// line that a preset rules under the first row is drawn only where more rows
/// follow.
pub fn draw_table(table: Table, config: RenderConfig) -> (text: String)
    requires
        table_look(table) is Some,
        drawable(table_rows(table), config),
    ensures
        text@ == table_text(table_rows(table), config, rules_header(table_rows(table), config)),
        table_rows(table).len() == 0 || table_rows(table)[0].len() == 0 ==> text@.len() == 0,
{
    let mut table = table;
    align_left(&mut table);
    style_sharp(&mut table);
    set_padding(&mut table, config.padding.left, config.padding.right);
    if count_rows(&table) > 1 {
        config.style.apply_to(&mut table);
    } else {
        config.style.apply_bare_to(&mut table);
    }
    draw(&table)
}

/// What `get_output` gives: nothing where the selection leaves no row, else
/// the drawing of the rows it leaves, squared.
pub open spec fn output_text(rows: Grid, config: RenderConfig, cols: Option<Cols>) -> Option<
    Seq<char>,
> {
    let kept = selected(rows, cols);
    if kept.len() == 0 {
        None
    } else {
        Some(table_text(squared(kept), config, rules_header(kept, config)))
    }
}

/// The text of an optional string.
pub open spec fn text_of(out: Option<String>) -> Option<Seq<char>> {
    match out {
        None => None,
        Some(text) => Some(text@),
    }
}

/// Draws the rows that the selection of columns leaves, or gives nothing
/// where it leaves none.
pub fn get_output(data: &[Vec<String>], config: RenderConfig, cols: Option<Cols>) -> (out: Option<
    String,
>)
    requires
        drawable(data.deep_view(), config),
    ensures
        text_of(out) == output_text(data.deep_view(), config, cols),
{
    proof {
        lemma_selected_drawable(data.deep_view(), cols, config);
        lemma_squared_drawable(selected(data.deep_view(), cols), config);
    }
    let table = match &cols {
        Some(chosen) => {
            let kept = select_columns(data, chosen);
            table_of(kept.as_slice())
        },
        None => table_of(data),
    };
    if count_rows(&table) == 0 {
        return None;
    }
    Some(draw_table(table, config))
}

/// Where every listed position lies beyond the end of every row, showing the
/// listed columns gives nothing: no text at all, not an empty table.
pub proof fn lemma_out_of_range_gives_nothing(rows: Grid, config: RenderConfig, cols: Cols)
    requires
        cols.keep,
        forall|r: int, k: int|
            0 <= r < rows.len() && 0 <= k < cols.values@.len() ==> (#[trigger] rows[r]).len()
                <= #[trigger] cols.values@[k],
    ensures
        output_text(rows, config, Some(cols)) is None,
{
    lemma_positions_out_of_range(rows, cols);
}

/// Drawing is determined by the rows, the settings and the selection: two
/// results for the same three are the same.
pub proof fn lemma_same_input_same_output(
    rows: Grid,
    config: RenderConfig,
    cols: Option<Cols>,
    first: Option<Seq<char>>,
    second: Option<Seq<char>>,
)
    requires
        first == output_text(rows, config, cols),
        second == output_text(rows, config, cols),
    ensures
        first == second,
{
}

} // verus!
