//! Keeping some columns of a grid and dropping the others.

use crate::config::RenderConfig;
use crate::grid::{drawable, line_bound, Grid, Row};
use crate::types::{listed, Cols};
use vstd::prelude::*;

verus! {

/// What is kept of the first `n` cells of a row: the cells at the shown
/// positions, in the order they stand in.
pub open spec fn picked(row: Row, cols: Cols, n: int) -> Row
    decreases n,
{
    if n <= 0 {
        Seq::empty()
    } else if cols.keeps(n - 1) {
        picked(row, cols, n - 1).push(row[n - 1])
    } else {
        picked(row, cols, n - 1)
    }
}

/// What is kept of a whole row.
pub open spec fn picked_row(row: Row, cols: Cols) -> Row {
    picked(row, cols, row.len() as int)
}

/// What is kept of the first `n` rows of a grid: of each row the shown cells,
/// and no row of which no cell is shown.
pub open spec fn selected_upto(rows: Grid, cols: Cols, n: int) -> Grid
    decreases n,
{
    if n <= 0 {
        Seq::empty()
    } else if picked_row(rows[n - 1], cols).len() > 0 {
        selected_upto(rows, cols, n - 1).push(picked_row(rows[n - 1], cols))
    } else {
        selected_upto(rows, cols, n - 1)
    }
}

/// The grid that a selection leaves. Without a selection the grid stays as it
/// is, with its empty rows.
pub open spec fn selected(rows: Grid, cols: Option<Cols>) -> Grid {
    match cols {
        None => rows,
        Some(c) => selected_upto(rows, c, rows.len() as int),
    }
}

/// Of `n` cells at most `n` are kept.
pub proof fn lemma_picked_len(row: Row, cols: Cols, n: int)
    requires
        0 <= n,
    ensures
        picked(row, cols, n).len() <= n,
    decreases n,
{
    if n > 0 {
        lemma_picked_len(row, cols, n - 1);
    }
}

/// Every kept cell is a cell of the row: the result names its position there.
pub proof fn lemma_picked_source(row: Row, cols: Cols, n: int, j: int) -> (c: int)
    requires
        0 <= n <= row.len(),
        0 <= j < picked(row, cols, n).len(),
    ensures
        0 <= c < n,
        cols.keeps(c),
        picked(row, cols, n)[j] == row[c],
    decreases n,
{
    if cols.keeps(n - 1) && j == picked(row, cols, n - 1).len() {
        n - 1
    } else {
        lemma_picked_source(row, cols, n - 1, j)
    }
}

/// Every kept row is what is kept of a row of the grid: the result names that
/// row.
pub proof fn lemma_selected_source(rows: Grid, cols: Cols, n: int, i: int) -> (r: int)
    requires
        0 <= n <= rows.len(),
        0 <= i < selected_upto(rows, cols, n).len(),
    ensures
        0 <= r < n,
        selected_upto(rows, cols, n)[i] == picked_row(rows[r], cols),
        selected_upto(rows, cols, n)[i].len() > 0,
    decreases n,
{
    if picked_row(rows[n - 1], cols).len() > 0 && i == selected_upto(rows, cols, n - 1).len() {
        n - 1
    } else {
        lemma_selected_source(rows, cols, n - 1, i)
    }
}

/// A grid that is sure to fit stays so under any selection of its columns.
pub proof fn lemma_selected_drawable(rows: Grid, cols: Option<Cols>, look: RenderConfig)
    requires
        drawable(rows, look),
    ensures
        drawable(selected(rows, cols), look),
{
    if let Some(c) = cols {
        let n = rows.len() as int;
        let kept = selected_upto(rows, c, n);
        assert forall|i: int, j: int, k: int|
            0 <= i < kept.len() && 0 <= j < kept[i].len() && 0 <= k < kept.len() implies line_bound(
            (#[trigger] kept[k]).len(),
            (#[trigger] kept[i][j]).len(),
            look,
        ) <= usize::MAX by {
            let ri = lemma_selected_source(rows, c, n, i);
            let rk = lemma_selected_source(rows, c, n, k);
            let ci = lemma_picked_source(rows[ri], c, rows[ri].len() as int, j);
            lemma_picked_len(rows[rk], c, rows[rk].len() as int);
            assert(line_bound(rows[rk].len(), rows[ri][ci].len(), look) <= usize::MAX);
            assert(line_bound(kept[k].len(), rows[ri][ci].len(), look) <= line_bound(
                rows[rk].len(),
                rows[ri][ci].len(),
                look,
            )) by (nonlinear_arith)
                requires
                    kept[k].len() <= rows[rk].len(),
            ;
        }
    }
}

/// Where every listed position lies beyond the end of every row, showing the
/// listed columns leaves no row at all.
pub proof fn lemma_positions_out_of_range(rows: Grid, cols: Cols)
    requires
        cols.keep,
        forall|r: int, k: int|
            0 <= r < rows.len() && 0 <= k < cols.values@.len() ==> (#[trigger] rows[r]).len()
                <= #[trigger] cols.values@[k],
    ensures
        selected(rows, Some(cols)).len() == 0,
{
    let n = rows.len() as int;
    if selected_upto(rows, cols, n).len() > 0 {
        let r = lemma_selected_source(rows, cols, n, 0);
        let c = lemma_picked_source(rows[r], cols, rows[r].len() as int, 0);
        let k = choose|k: int| 0 <= k < cols.values@.len() && cols.values@[k] == c;
        assert(rows[r].len() <= cols.values@[k]);
    }
}

/// A shown cell stands in the kept row behind all shown cells that stood
/// before it: at the position that is the number of those.
pub proof fn lemma_picked_keeps_order(row: Row, cols: Cols, n: int, c: int)
    requires
        0 <= c < n <= row.len(),
        cols.keeps(c),
    ensures
        picked(row, cols, c).len() < picked(row, cols, n).len(),
        picked(row, cols, n)[picked(row, cols, c).len() as int] == row[c],
    decreases n,
{
    if c < n - 1 {
        lemma_picked_keeps_order(row, cols, n - 1, c);
    }
}

/// Showing the listed columns and leaving the same columns out divide a row
/// between them: each cell is kept by exactly one of the two.
pub proof fn lemma_select_and_skip_are_complements(row: Row, values: Vec<usize>, n: int)
    requires
        0 <= n <= row.len(),
    ensures
        picked(row, Cols { values, keep: true }, n).len() + picked(
            row,
            Cols { values, keep: false },
            n,
        ).len() == n,
        forall|c: int|
            (Cols { values, keep: true }).keeps(c) != (Cols { values, keep: false }).keeps(c),
    decreases n,
{
    if n > 0 {
        lemma_select_and_skip_are_complements(row, values, n - 1);
    }
}

/// Of a row of three cells, showing the columns 0 and 2 keeps the first and
/// the third cell in that order, and leaving out the same two keeps the
/// second cell alone.
pub proof fn lemma_first_and_third_of_three(row: Row, values: Vec<usize>)
    requires
        row.len() == 3,
        forall|i: int| listed(values@, i) <==> i == 0 || i == 2,
    ensures
        picked_row(row, Cols { values, keep: true }) == seq![row[0], row[2]],
        picked_row(row, Cols { values, keep: false }) == seq![row[1]],
{
    let shown = Cols { values, keep: true };
    let left_out = Cols { values, keep: false };
    assert(listed(values@, 0) && !listed(values@, 1) && listed(values@, 2));
    reveal_with_fuel(picked, 4);
    assert(picked(row, shown, 3) =~= seq![row[0], row[2]]);
    assert(picked(row, left_out, 3) =~= seq![row[1]]);
}

/// Of a grid of three columns, showing the columns 0 and 2 leaves a grid of
/// two columns, the first and the third of each row in that order, and leaving
/// out the same two leaves the one column between them. No row is dropped.
pub proof fn lemma_first_and_third_column(rows: Grid, values: Vec<usize>, n: int)
    requires
        0 <= n <= rows.len(),
        forall|r: int| 0 <= r < rows.len() ==> (#[trigger] rows[r]).len() == 3,
        forall|i: int| listed(values@, i) <==> i == 0 || i == 2,
    ensures
        selected_upto(rows, Cols { values, keep: true }, n) == Seq::new(
            n as nat,
            |r: int| seq![rows[r][0], rows[r][2]],
        ),
        selected_upto(rows, Cols { values, keep: false }, n) == Seq::new(
            n as nat,
            |r: int| seq![rows[r][1]],
        ),
    decreases n,
{
    if n > 0 {
        lemma_first_and_third_column(rows, values, n - 1);
        lemma_first_and_third_of_three(rows[n - 1], values);
    }
    assert(selected_upto(rows, Cols { values, keep: true }, n) =~= Seq::new(
        n as nat,
        |r: int| seq![rows[r][0], rows[r][2]],
    ));
    assert(selected_upto(rows, Cols { values, keep: false }, n) =~= Seq::new(
        n as nat,
        |r: int| seq![rows[r][1]],
    ));
}

/// The shown cells of a row.
pub fn pick_cells(row: &Vec<String>, cols: &Cols) -> (out: Vec<String>)
    ensures
        out.deep_view() == picked_row(row.deep_view(), *cols),
{
    let ghost cells = row.deep_view();
    let mut out: Vec<String> = Vec::new();
    let mut j: usize = 0;
    assert(out.deep_view() =~= picked(cells, *cols, 0));
    while j < row.len()
        invariant
            j <= row.len(),
            cells == row.deep_view(),
            out.deep_view() == picked(cells, *cols, j as int),
        decreases row.len() - j,
    {
        if cols.shows(j) {
            let ghost before = out.deep_view();
            let cell = row[j].clone();
            out.push(cell);
            assert(out.deep_view() =~= before.push(cells[j as int]));
        }
        j += 1;
    }
    out
}

/// The rows that the selection leaves: of each row the shown cells, without
/// the rows of which no cell is shown.
pub fn select_columns(data: &[Vec<String>], cols: &Cols) -> (out: Vec<Vec<String>>)
    ensures
        out.deep_view() == selected(data.deep_view(), Some(*cols)),
{
    let ghost rows = data.deep_view();
    let mut out: Vec<Vec<String>> = Vec::new();
    let mut i: usize = 0;
    assert(out.deep_view() =~= selected_upto(rows, *cols, 0));
    while i < data.len()
        invariant
            i <= data.len(),
            rows == data.deep_view(),
            out.deep_view() == selected_upto(rows, *cols, i as int),
        decreases data.len() - i,
    {
        assert(data[i as int].deep_view() == rows[i as int]);
        let cells = pick_cells(&data[i], cols);
        if cells.len() > 0 {
            let ghost before = out.deep_view();
            let ghost row = cells.deep_view();
            out.push(cells);
            assert(out.deep_view() =~= before.push(row));
        }
        i += 1;
    }
    out
}

/// A copy of the rows.
pub fn copy_rows(data: &[Vec<String>]) -> (out: Vec<Vec<String>>)
    ensures
        out.deep_view() == data.deep_view(),
{
    let mut out: Vec<Vec<String>> = Vec::new();
    let mut i: usize = 0;
    while i < data.len()
        invariant
            i <= data.len(),
            out.len() == i,
            forall|r: int| 0 <= r < i ==> (#[trigger] out[r]).deep_view() == data[r].deep_view(),
        decreases data.len() - i,
    {
        let row = &data[i];
        let mut cells: Vec<String> = Vec::new();
        let mut j: usize = 0;
        while j < row.len()
            invariant
                j <= row.len(),
                cells.len() == j,
                forall|c: int| 0 <= c < j ==> (#[trigger] cells[c])@ == row[c]@,
            decreases row.len() - j,
        {
            cells.push(row[j].clone());
            j += 1;
        }
        assert(cells.deep_view() =~= row.deep_view());
        out.push(cells);
        i += 1;
    }
    assert(out.deep_view() =~= data.deep_view());
    out
}

/// Reduces a grid to the columns of a selection. Without a selection the
/// grid comes back as it is. With one, the rows of which nothing is shown
/// are dropped, and where no row is left there is no grid to give.
pub fn project(data: &[Vec<String>], cols: &Option<Cols>) -> (out: Option<Vec<Vec<String>>>)
    ensures
        match out {
            Some(kept) => kept.deep_view() == selected(data.deep_view(), *cols) && (cols is Some
                ==> kept.len() > 0),
            None => cols is Some && selected(data.deep_view(), *cols).len() == 0,
        },
{
    match cols {
        None => Some(copy_rows(data)),
        Some(chosen) => {
            let kept = select_columns(data, chosen);
            if kept.len() == 0 {
                None
            } else {
                Some(kept)
            }
        },
    }
}

} // verus!
